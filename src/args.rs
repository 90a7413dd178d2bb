//! Call requests, their argument mappings, and call results.

use vstd::prelude::*;

verus! {

/// An argument value as a handler sees it.
pub enum ArgValue {
    Null,
    Bool(bool),
    Int(i64),
    Text(String),
    /// Any other value (a fractional number, an array, an object): no handler
    /// reads inside one.
    Other,
}

/// A mapping from argument names to values. Inserting a name that is
/// already present replaces its value.
pub struct Arguments {
    entries: Vec<(String, ArgValue)>,
}

/// The mapping that a list of insertions leaves: later ones win.
pub open spec fn entries_map(s: Seq<(String, ArgValue)>) -> Map<Seq<char>, ArgValue>
    decreases s.len(),
{
    if s.len() == 0 {
        Map::empty()
    } else {
        entries_map(s.drop_last()).insert(s.last().0@, s.last().1)
    }
}

impl View for Arguments {
    type V = Map<Seq<char>, ArgValue>;

    closed spec fn view(&self) -> Map<Seq<char>, ArgValue> {
        entries_map(self.entries@)
    }
}

/// Entries at positions `i` and after do not bind `k`, so `k` is bound as in
/// the first `i` entries.
proof fn lemma_unbound_suffix(s: Seq<(String, ArgValue)>, i: int, k: Seq<char>)
    requires
        0 <= i <= s.len(),
        forall|j: int| i <= j < s.len() ==> (#[trigger] s[j]).0@ != k,
    ensures
        entries_map(s).contains_key(k) == entries_map(s.take(i)).contains_key(k),
        entries_map(s).contains_key(k) ==> entries_map(s)[k] == entries_map(s.take(i))[k],
    decreases s.len(),
{
    if i == s.len() {
        assert(s.take(i) =~= s);
    } else {
        let t = s.drop_last();
        assert(t.take(i) =~= s.take(i));
        assert forall|j: int| i <= j < t.len() implies (#[trigger] t[j]).0@ != k by {
            assert(t[j] == s[j]);
        }
        lemma_unbound_suffix(t, i, k);
    }
}

/// The text of the argument `key`: empty when `args` is absent, when `key` is
/// not bound, or when its value is not text.
pub open spec fn text_arg(args: Option<Arguments>, key: Seq<char>) -> Seq<char> {
    match args {
        Some(a) => if a@.contains_key(key) {
            match a@[key] {
                ArgValue::Text(s) => s@,
                _ => Seq::empty(),
            }
        } else {
            Seq::empty()
        },
        None => Seq::empty(),
    }
}

impl Arguments {
    /// The empty mapping.
    pub fn new() -> (r: Arguments)
        ensures
            r@ == Map::<Seq<char>, ArgValue>::empty(),
    {
        Arguments { entries: Vec::new() }
    }

    /// Binds `key` to `value`, replacing an earlier binding of `key`.
    pub fn insert(&mut self, key: String, value: ArgValue)
        ensures
            final(self)@ == old(self)@.insert(key@, value),
    {
        let ghost before = self.entries@;
        self.entries.push((key, value));
        assert(self.entries@.drop_last() =~= before);
    }

    /// The value bound to `key`, if any.
    pub fn get(&self, key: &str) -> (r: Option<&ArgValue>)
        ensures
            r is Some <==> self@.contains_key(key@),
            r matches Some(v) ==> *v == self@[key@],
    {
        let k = key.to_owned();
        let mut i: usize = self.entries.len();
        while i > 0
            invariant
                0 <= i <= self.entries@.len(),
                k@ == key@,
                forall|j: int| i <= j < self.entries@.len() ==> (#[trigger] self.entries@[j]).0@ != k@,
            decreases i,
        {
            if self.entries[i - 1].0 == k {
                proof {
                    let s = self.entries@;
                    lemma_unbound_suffix(s, i as int, k@);
                    assert(s.take(i as int).drop_last() =~= s.take(i - 1));
                }
                return Some(&self.entries[i - 1].1);
            }
            i = i - 1;
        }
        proof {
            lemma_unbound_suffix(self.entries@, 0, k@);
            assert(self.entries@.take(0) =~= Seq::<(String, ArgValue)>::empty());
        }
        None
    }
}

/// The text of argument `key`, or the empty string when `args` is absent,
/// `key` is not bound, or its value is not text.
pub fn string_arg(args: &Option<Arguments>, key: &str) -> (r: String)
    ensures
        r@ == text_arg(*args, key@),
{
    match args {
        Some(a) => match a.get(key) {
            Some(ArgValue::Text(s)) => s.clone(),
            _ => String::new(),
        },
        None => String::new(),
    }
}

/// A request to run the tool `tool_name`.
pub struct CallRequest {
    pub tool_name: String,
    pub arguments: Option<Arguments>,
}

/// One block of result content.
pub enum ContentBlock {
    Text(String),
}

/// The content a successful call produces.
pub struct CallResult {
    pub content: Vec<ContentBlock>,
}

/// Whether `r` is a single text block holding `t`.
pub open spec fn is_text_result(r: CallResult, t: Seq<char>) -> bool {
    &&& r.content@.len() == 1
    &&& r.content@[0] matches ContentBlock::Text(s) && s@ == t
}

impl CallResult {
    /// A result of one text block.
    pub fn text(t: String) -> (r: CallResult)
        ensures
            is_text_result(r, t@),
    {
        CallResult { content: vec![ContentBlock::Text(t)] }
    }
}

} // verus!

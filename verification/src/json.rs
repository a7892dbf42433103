//! The JSON values that the option records, the socket commands and the
//! request contexts are made of, held as plain data.
use vstd::prelude::*;
use vstd::string::*;

verus! {

/// A JSON number as the server reads it: its value when it is a
/// non-negative integer that fits in a `u64`, and its decimal text.
#[derive(Debug, Clone, PartialEq)]
pub struct JsonNumber {
    pub as_u64: Option<u64>,
    pub text: String,
}

/// A JSON value. An object keeps its members in the order in which they
/// were read; a lookup by key finds the first member with that key.
#[derive(Debug, PartialEq)]
pub enum Json {
    Null,
    Bool(bool),
    Number(JsonNumber),
    Str(String),
    Array(Vec<Json>),
    Object(Vec<(String, Json)>),
}

/// The value of the first member of `members` whose key is `key`.
pub open spec fn member_lookup(members: Seq<(String, Json)>, key: Seq<char>) -> Option<Json>
    decreases members.len(),
{
    if members.len() == 0 {
        None
    } else if members[0].0@ == key {
        Some(members[0].1)
    } else {
        member_lookup(members.drop_first(), key)
    }
}

impl JsonNumber {
    /// The text of a number that fits in a `u64` is its decimal text.
    pub open spec fn wf(self) -> bool {
        self.as_u64 matches Some(v) ==> self.text@ == decimal_text(v as nat)
    }
}

impl Json {
    /// Every number in the value is well formed.
    pub open spec fn wf(self) -> bool
        decreases self,
    {
        match self {
            Json::Number(n) => n.wf(),
            Json::Array(items) => forall|i: int|
                0 <= i < items@.len() ==> (#[trigger] items@[i]).wf(),
            Json::Object(members) => forall|i: int|
                0 <= i < members@.len() ==> (#[trigger] members@[i]).1.wf(),
            _ => true,
        }
    }

    /// What `get` finds: the member `key` of an object, nothing for any
    /// other kind of value.
    pub open spec fn spec_get(self, key: Seq<char>) -> Option<Json> {
        match self {
            Json::Object(members) => member_lookup(members@, key),
            _ => None,
        }
    }

    pub open spec fn spec_as_u64(self) -> Option<u64> {
        match self {
            Json::Number(n) => n.as_u64,
            _ => None,
        }
    }

    pub open spec fn spec_as_str(self) -> Option<Seq<char>> {
        match self {
            Json::Str(s) => Some(s@),
            _ => None,
        }
    }

    pub open spec fn spec_as_bool(self) -> Option<bool> {
        match self {
            Json::Bool(b) => Some(b),
            _ => None,
        }
    }

    /// The member `key` of an object; `None` for a missing key or a value
    /// that is not an object.
    pub fn get(&self, key: &str) -> (r: Option<&Json>)
        ensures
            match r {
                Some(v) => self.spec_get(key@) == Some(*v),
                None => self.spec_get(key@) is None,
            },
    {
        match self {
            Json::Object(members) => {
                let wanted = String::from_str(key);
                let mut i: usize = 0;
                assert(members@.skip(0) =~= members@);
                while i < members.len()
                    invariant
                        i <= members@.len(),
                        wanted@ == key@,
                        self.spec_get(key@) == member_lookup(members@, key@),
                        member_lookup(members@, key@) == member_lookup(
                            members@.skip(i as int),
                            key@,
                        ),
                    decreases members@.len() - i,
                {
                    assert(members@.skip(i as int)[0] == members@[i as int]);
                    if members[i].0 == wanted {
                        assert(member_lookup(members@.skip(i as int), key@) == Some(
                            members@[i as int].1,
                        ));
                        return Some(&members[i].1);
                    }
                    assert(members@.skip(i as int).drop_first() =~= members@.skip(i + 1));
                    i = i + 1;
                }
                assert(members@.skip(i as int) =~= Seq::<(String, Json)>::empty());
                None
            },
            _ => None,
        }
    }

    pub fn as_u64(&self) -> (r: Option<u64>)
        ensures
            r == self.spec_as_u64(),
    {
        match self {
            Json::Number(n) => n.as_u64,
            _ => None,
        }
    }

    pub fn as_str(&self) -> (r: Option<&String>)
        ensures
            match r {
                Some(s) => self.spec_as_str() == Some(s@),
                None => self.spec_as_str() is None,
            },
    {
        match self {
            Json::Str(s) => Some(s),
            _ => None,
        }
    }

    pub fn as_bool(&self) -> (r: Option<bool>)
        ensures
            r == self.spec_as_bool(),
    {
        match self {
            Json::Bool(b) => Some(*b),
            _ => None,
        }
    }
}

/// The character of a decimal digit.
pub open spec fn digit_char(d: nat) -> char
    recommends
        d < 10,
{
    if d == 0 {
        '0'
    } else if d == 1 {
        '1'
    } else if d == 2 {
        '2'
    } else if d == 3 {
        '3'
    } else if d == 4 {
        '4'
    } else if d == 5 {
        '5'
    } else if d == 6 {
        '6'
    } else if d == 7 {
        '7'
    } else if d == 8 {
        '8'
    } else {
        '9'
    }
}

/// The decimal text of `n`, without leading zeros.
pub open spec fn decimal_text(n: nat) -> Seq<char>
    decreases n,
{
    if n < 10 {
        seq![digit_char(n)]
    } else {
        decimal_text(n / 10).push(digit_char(n % 10))
    }
}

fn digit_str(d: u64) -> (s: &'static str)
    requires
        d < 10,
    ensures
        s@ == seq![digit_char(d as nat)],
{
    proof {
        reveal_strlit("0");
        reveal_strlit("1");
        reveal_strlit("2");
        reveal_strlit("3");
        reveal_strlit("4");
        reveal_strlit("5");
        reveal_strlit("6");
        reveal_strlit("7");
        reveal_strlit("8");
        reveal_strlit("9");
    }
    if d == 0 {
        "0"
    } else if d == 1 {
        "1"
    } else if d == 2 {
        "2"
    } else if d == 3 {
        "3"
    } else if d == 4 {
        "4"
    } else if d == 5 {
        "5"
    } else if d == 6 {
        "6"
    } else if d == 7 {
        "7"
    } else if d == 8 {
        "8"
    } else {
        "9"
    }
}

/// The decimal text of `n`, as JSON writes an unsigned integer.
pub fn decimal_string(n: u64) -> (s: String)
    ensures
        s@ == decimal_text(n as nat),
    decreases n,
{
    if n < 10 {
        String::from_str(digit_str(n))
    } else {
        let mut s = decimal_string(n / 10);
        s.append(digit_str(n % 10));
        s
    }
}

/// The JSON number whose value is `n`.
pub fn number_json(n: u64) -> (r: Json)
    ensures
        r matches Json::Number(num) && num.as_u64 == Some(n) && num.text@ == decimal_text(n as nat),
        r.wf(),
{
    Json::Number(JsonNumber { as_u64: Some(n), text: decimal_string(n) })
}

/// The JSON string whose text is `s`.
pub fn str_json(s: &str) -> (r: Json)
    ensures
        r.spec_as_str() == Some(s@),
        r.wf(),
{
    Json::Str(String::from_str(s))
}

} // verus!

//! The closed enumeration of recognized smile styles and its parse function.
use vstd::prelude::*;
use vstd::string::StrSliceExecFns;

verus! {

/// A recognized smile style. The set is closed: every value of this type
/// corresponds to exactly one recognized name, and parsing fails on any
/// other string, so no "unknown" variant exists.
#[derive(Clone, Copy, Debug, PartialEq, Eq, Structural)]
pub enum SmileKind {
    Happy,
    Sad,
    Angry,
    Wink,
    Neutral,
}

/// The recognized name of each smile kind. Names are matched case-sensitively.
pub open spec fn spec_name(k: SmileKind) -> Seq<char> {
    match k {
        SmileKind::Happy => "happy"@,
        SmileKind::Sad => "sad"@,
        SmileKind::Angry => "angry"@,
        SmileKind::Wink => "wink"@,
        SmileKind::Neutral => "neutral"@,
    }
}

/// Which smile kind, if any, a raw parameter string names.
pub open spec fn kind_of_name(s: Seq<char>) -> Option<SmileKind> {
    if s == spec_name(SmileKind::Happy) {
        Some(SmileKind::Happy)
    } else if s == spec_name(SmileKind::Sad) {
        Some(SmileKind::Sad)
    } else if s == spec_name(SmileKind::Angry) {
        Some(SmileKind::Angry)
    } else if s == spec_name(SmileKind::Wink) {
        Some(SmileKind::Wink)
    } else if s == spec_name(SmileKind::Neutral) {
        Some(SmileKind::Neutral)
    } else {
        None
    }
}

/// Character-by-character string comparison, so that the parse below can be
/// proved against the views of the name literals.
fn str_eq(a: &str, b: &str) -> (r: bool)
    ensures
        r == (a@ == b@),
{
    let a_len = a.unicode_len();
    let b_len = b.unicode_len();
    if a_len != b_len {
        return false;
    }
    let mut i: usize = 0;
    while i < a_len
        invariant
            i <= a_len,
            a_len == a@.len(),
            a_len == b@.len(),
            forall|j: int| 0 <= j < i ==> a@[j] == b@[j],
        decreases a_len - i,
    {
        if a.get_char(i) != b.get_char(i) {
            return false;
        }
        i = i + 1;
    }
    proof {
        assert(a@ =~= b@);
    }
    true
}

impl SmileKind {
    /// Total parse from a raw string to the closed enumeration; `None` on
    /// every unrecognized name.
    pub fn parse(s: &str) -> (r: Option<SmileKind>)
        ensures
            r == kind_of_name(s@),
    {
        if str_eq(s, "happy") {
            Some(SmileKind::Happy)
        } else if str_eq(s, "sad") {
            Some(SmileKind::Sad)
        } else if str_eq(s, "angry") {
            Some(SmileKind::Angry)
        } else if str_eq(s, "wink") {
            Some(SmileKind::Wink)
        } else if str_eq(s, "neutral") {
            Some(SmileKind::Neutral)
        } else {
            None
        }
    }

    /// The recognized name of this smile kind.
    pub fn name(&self) -> (r: &'static str)
        ensures
            r@ == spec_name(*self),
    {
        match self {
            SmileKind::Happy => "happy",
            SmileKind::Sad => "sad",
            SmileKind::Angry => "angry",
            SmileKind::Wink => "wink",
            SmileKind::Neutral => "neutral",
        }
    }
}

/// The recognized names are pairwise distinct.
proof fn lemma_names_distinct()
    ensures
        forall|k1: SmileKind, k2: SmileKind| spec_name(k1) == spec_name(k2) ==> k1 == k2,
{
    reveal_strlit("happy");
    reveal_strlit("sad");
    reveal_strlit("angry");
    reveal_strlit("wink");
    reveal_strlit("neutral");
    assert forall|k1: SmileKind, k2: SmileKind| spec_name(k1) == spec_name(k2) implies k1 == k2 by {
        assert("happy"@.len() == 5);
        assert("sad"@.len() == 3);
        assert("angry"@.len() == 5);
        assert("wink"@.len() == 4);
        assert("neutral"@.len() == 7);
        assert("happy"@[0] == 'h');
        assert("angry"@[0] == 'a');
    }
}

/// Every smile kind's name parses back to that kind, and a string parses to a
/// kind only if it is that kind's name: the enumeration and its names are in
/// exact one-to-one correspondence.
pub proof fn lemma_name_round_trip(k: SmileKind, s: Seq<char>)
    ensures
        kind_of_name(spec_name(k)) == Some(k),
        kind_of_name(s) == Some(k) ==> s == spec_name(k),
{
    lemma_names_distinct();
}

} // verus!

//! Amateur radio callsigns, compared without regard to case.

use vstd::prelude::*;
use vstd::std_specs::cmp::PartialEqSpecImpl;

use vstd::utf8::is_ascii_chars;

use crate::text::{
    ascii_lower, ascii_upper, lemma_ascii_case_mapping, to_lowercase, to_uppercase, unicode_lowercase,
    unicode_uppercase,
};

verus! {

/// A callsign, held in lowercase so that `M0ABC` and `m0abc` are the same callsign.
#[derive(Clone, Debug)]
pub struct Callsign {
    callsign: String,
}

impl View for Callsign {
    type V = Seq<char>;

    /// The stored (lowercase) text of the callsign.
    closed spec fn view(&self) -> Seq<char> {
        self.callsign@
    }
}

impl DeepView for Callsign {
    type V = Seq<char>;

    open spec fn deep_view(&self) -> Seq<char> {
        self@
    }
}

/// How a callsign is shown to people: the uppercase form of its stored text.
pub open spec fn callsign_display(c: Seq<char>) -> Seq<char> {
    unicode_uppercase(c)
}

impl Callsign {
    /// A callsign from its text in any case.
    pub fn new(s: &str) -> (c: Self)
        ensures
            c@ == unicode_lowercase(s@),
            is_ascii_chars(s@) ==> c@ == ascii_lower(s@),
    {
        Callsign { callsign: to_lowercase(s) }
    }

    /// The lowercase text of the callsign.
    pub fn lower(&self) -> (r: &str)
        ensures
            r@ == self@,
    {
        self.callsign.as_str()
    }

    /// The callsign as it is displayed (uppercase).
    pub fn to_display_string(&self) -> (r: String)
        ensures
            r@ == callsign_display(self@),
            is_ascii_chars(self@) ==> r@ == ascii_upper(self@),
    {
        to_uppercase(self.callsign.as_str())
    }

    /// A second callsign equal to this one.
    pub fn duplicate(&self) -> (r: Callsign)
        ensures
            r@ == self@,
    {
        Callsign { callsign: self.callsign.clone() }
    }

    /// Whether two callsigns are the same.
    pub fn same(&self, other: &Callsign) -> (r: bool)
        ensures
            r == (self@ == other@),
    {
        self.callsign == other.callsign
    }
}

impl PartialEq for Callsign {
    fn eq(&self, other: &Callsign) -> (r: bool) {
        self.callsign == other.callsign
    }
}

impl PartialEqSpecImpl for Callsign {
    open spec fn obeys_eq_spec() -> bool {
        true
    }

    open spec fn eq_spec(&self, other: &Callsign) -> bool {
        self@ == other@
    }
}

impl core::str::FromStr for Callsign {
    type Err = String;

    fn from_str(s: &str) -> (r: Result<Callsign, String>)
        ensures
            r matches Ok(c) && c@ == unicode_lowercase(s@),
            is_ascii_chars(s@) ==> (r matches Ok(c) && c@ == ascii_lower(s@)),
    {
        Ok(Callsign::new(s))
    }
}

/// A callsign built from ASCII text is held as lowercase ASCII, so building a
/// callsign again from its stored text (`lower`) gives an equal callsign, and
/// building one from the same text in uppercase gives an equal callsign too.
pub proof fn lemma_ascii_callsign_rebuilds(text: Seq<char>, c: Callsign)
    requires
        is_ascii_chars(text),
        c@ == ascii_lower(text),
    ensures
        is_ascii_chars(c@),
        ascii_lower(c@) == c@,
        ascii_lower(ascii_upper(text)) == c@,
{
    lemma_ascii_case_mapping(text);
}

/// Whether `callsigns` holds a callsign equal to `c`.
pub fn contains_callsign(callsigns: &Vec<Callsign>, c: &Callsign) -> (r: bool)
    ensures
        r == callsigns.deep_view().contains(c@),
{
    let n = callsigns.len();
    let mut i: usize = 0;
    while i < n
        invariant
            n == callsigns.len(),
            i <= n,
            forall|j: int| 0 <= j < i ==> callsigns.deep_view()[j] != c@,
        decreases n - i,
    {
        if callsigns[i].same(c) {
            assert(callsigns.deep_view()[i as int] == c@);
            return true;
        }
        i = i + 1;
    }
    false
}

/// The displayed forms of callsigns, in order.
pub open spec fn callsign_displays(callsigns: Seq<Seq<char>>) -> Seq<Seq<char>> {
    callsigns.map_values(|c: Seq<char>| callsign_display(c))
}

/// The displayed forms of `callsigns`, in order.
pub fn display_all(callsigns: &Vec<Callsign>) -> (r: Vec<String>)
    ensures
        r.deep_view() == callsign_displays(callsigns.deep_view()),
{
    let n = callsigns.len();
    let mut r: Vec<String> = Vec::new();
    let mut i: usize = 0;
    while i < n
        invariant
            n == callsigns.len(),
            i <= n,
            r.deep_view() =~= callsign_displays(callsigns.deep_view()).take(i as int),
        decreases n - i,
    {
        let ghost before = r.deep_view();
        let shown = callsigns[i].to_display_string();
        r.push(shown);
        assert(r.deep_view() =~= before.push(shown@));
        i = i + 1;
        assert(r.deep_view() =~= callsign_displays(callsigns.deep_view()).take(i as int));
    }
    assert(callsign_displays(callsigns.deep_view()).take(n as int) =~= callsign_displays(
        callsigns.deep_view(),
    ));
    r
}

} // verus!

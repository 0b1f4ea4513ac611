//! The bot's configuration: its operators and the users allowed to transmit.

use vstd::prelude::*;

use crate::callsign::{contains_callsign, callsign_display, Callsign};
use crate::text::contains_string;

verus! {

/// A person known to the bot: their Matrix IDs, their licensed callsigns
/// (the first is their default) and their DAPNET user names.
#[derive(Clone, Debug)]
pub struct User {
    pub matrix_ids: Vec<String>,
    pub callsigns: Vec<Callsign>,
    pub dapnet_usernames: Vec<String>,
}

/// Why a user may not transmit with a callsign.
#[derive(Clone, Debug)]
pub enum TransmitCheckError {
    /// The callsign is not one of the user's.
    UnknownCallsign { callsign: Callsign },
    /// The Matrix ID is not one of the user's.
    UnknownMatrixId { matrix_id: String },
}

/// The index of the first element of `s` that satisfies `p`.
pub open spec fn is_first_where<T>(s: Seq<T>, p: spec_fn(T) -> bool, i: int) -> bool {
    &&& 0 <= i < s.len()
    &&& p(s[i])
    &&& forall|j: int| 0 <= j < i ==> !p(#[trigger] s[j])
}

/// The index of the first element of `s` that satisfies `p`, if any does.
pub open spec fn first_where<T>(s: Seq<T>, p: spec_fn(T) -> bool) -> Option<int> {
    if exists|i: int| is_first_where(s, p, i) {
        Some(choose|i: int| is_first_where(s, p, i))
    } else {
        None
    }
}

/// When some element satisfies `p`, a first one does.
pub proof fn lemma_first_where_exists<T>(s: Seq<T>, p: spec_fn(T) -> bool, k: int)
    requires
        0 <= k < s.len(),
        p(s[k]),
    ensures
        exists|i: int| is_first_where(s, p, i),
    decreases k,
{
    if forall|j: int| 0 <= j < k ==> !p(#[trigger] s[j]) {
        assert(is_first_where(s, p, k));
    } else {
        let j = choose|j: int| 0 <= j < k && p(#[trigger] s[j]);
        lemma_first_where_exists(s, p, j);
    }
}

/// `first_where` names the one first index, and none when nothing matches.
pub proof fn lemma_first_where<T>(s: Seq<T>, p: spec_fn(T) -> bool, i: int)
    ensures
        is_first_where(s, p, i) ==> first_where(s, p) == Some(i),
        (forall|j: int| 0 <= j < s.len() ==> !p(#[trigger] s[j])) ==> first_where(s, p) is None,
{
    if is_first_where(s, p, i) {
        let k = choose|k: int| is_first_where(s, p, k);
        assert(is_first_where(s, p, k));
        if k < i {
            assert(!p(s[k]));
        } else if i < k {
            assert(!p(s[i]));
        }
    }
}

impl User {
    /// Whether `id` is one of the user's Matrix IDs.
    pub open spec fn has_matrix_id(&self, id: Seq<char>) -> bool {
        self.matrix_ids.deep_view().contains(id)
    }

    /// Whether `callsign` is one of the user's callsigns.
    pub open spec fn has_callsign(&self, callsign: Seq<char>) -> bool {
        self.callsigns.deep_view().contains(callsign)
    }

    /// Whether the user, known by `id`, may transmit with `callsign`.
    pub open spec fn can_transmit(&self, id: Seq<char>, callsign: Seq<char>) -> bool {
        self.has_callsign(callsign) && self.has_matrix_id(id)
    }

    /// Checks that `matrix_id` and `callsign` both belong to this user; the
    /// callsign is checked first.
    pub fn check_can_transmit(&self, matrix_id: &String, callsign: &Callsign) -> (r: Result<
        (),
        TransmitCheckError,
    >)
        ensures
            r is Ok <==> self.can_transmit(matrix_id@, callsign@),
            match r {
                Ok(()) => true,
                Err(TransmitCheckError::UnknownCallsign { callsign: c }) => {
                    &&& !self.has_callsign(callsign@)
                    &&& c@ == callsign@
                },
                Err(TransmitCheckError::UnknownMatrixId { matrix_id: m }) => {
                    &&& self.has_callsign(callsign@)
                    &&& !self.has_matrix_id(matrix_id@)
                    &&& m@ == matrix_id@
                },
            },
    {
        if !contains_callsign(&self.callsigns, callsign) {
            Err(TransmitCheckError::UnknownCallsign { callsign: callsign.duplicate() })
        } else if !contains_string(&self.matrix_ids, matrix_id) {
            Err(TransmitCheckError::UnknownMatrixId { matrix_id: matrix_id.clone() })
        } else {
            Ok(())
        }
    }

    /// The user's default callsign: the first one configured.
    pub fn get_default_callsign(&self) -> (r: Option<&Callsign>)
        ensures
            match r {
                Some(c) => self.callsigns@.len() > 0 && *c == self.callsigns@[0],
                None => self.callsigns@.len() == 0,
            },
    {
        if self.callsigns.len() > 0 {
            Some(&self.callsigns[0])
        } else {
            None
        }
    }
}

/// The text of a failed transmit check.
pub open spec fn transmit_check_error_text(e: TransmitCheckError) -> Seq<char> {
    match e {
        TransmitCheckError::UnknownCallsign { callsign } => "Callsign \""@ + callsign_display(
            callsign@,
        ) + "\" unknown to this user"@,
        TransmitCheckError::UnknownMatrixId { matrix_id } => "Matrix user ID \""@ + matrix_id@
            + "\" unknown to this user"@,
    }
}

impl TransmitCheckError {
    /// The message that explains the failed check.
    pub fn message(&self) -> (r: String)
        ensures
            r@ == transmit_check_error_text(*self),
    {
        match self {
            TransmitCheckError::UnknownCallsign { callsign } => {
                let mut r = String::from_str("Callsign \"");
                r.append(callsign.to_display_string().as_str());
                r.append("\" unknown to this user");
                r
            },
            TransmitCheckError::UnknownMatrixId { matrix_id } => {
                let mut r = String::from_str("Matrix user ID \"");
                r.append(matrix_id.as_str());
                r.append("\" unknown to this user");
                r
            },
        }
    }
}

/// The bot's configuration.
#[derive(Clone, Debug)]
pub struct Config {
    pub operators: Vec<User>,
    pub users: Vec<User>,
}

/// Whether a user has the Matrix ID `id`.
pub open spec fn user_has_id(id: Seq<char>) -> spec_fn(User) -> bool {
    |u: User| u.has_matrix_id(id)
}

/// Whether a user, known by `id`, may transmit with `callsign`.
pub open spec fn user_can_transmit(id: Seq<char>, callsign: Seq<char>) -> spec_fn(User) -> bool {
    |u: User| u.can_transmit(id, callsign)
}

impl Config {
    /// The index of the first configured user with Matrix ID `id`.
    pub open spec fn user_index(&self, id: Seq<char>) -> Option<int> {
        first_where(self.users@, user_has_id(id))
    }

    /// The index of the first configured user who, known by `id`, may
    /// transmit with `callsign`.
    pub open spec fn transmitter_index(&self, id: Seq<char>, callsign: Seq<char>) -> Option<int> {
        first_where(self.users@, user_can_transmit(id, callsign))
    }

    /// The first configured user with Matrix ID `matrix_id`.
    pub fn get_user(&self, matrix_id: &String) -> (r: Option<&User>)
        ensures
            match self.user_index(matrix_id@) {
                Some(i) => r == Some(&self.users@[i]),
                None => r is None,
            },
    {
        let ghost p = user_has_id(matrix_id@);
        let n = self.users.len();
        let mut i: usize = 0;
        while i < n
            invariant
                n == self.users@.len(),
                i <= n,
                p == user_has_id(matrix_id@),
                forall|j: int| 0 <= j < i ==> !p(#[trigger] self.users@[j]),
            decreases n - i,
        {
            if contains_string(&self.users[i].matrix_ids, matrix_id) {
                proof {
                    assert(is_first_where(self.users@, p, i as int));
                    lemma_first_where(self.users@, p, i as int);
                }
                return Some(&self.users[i]);
            }
            i = i + 1;
        }
        proof {
            lemma_first_where(self.users@, p, 0);
        }
        None
    }

    /// The first configured user who, known by `matrix_id`, may transmit with
    /// `callsign`.
    pub fn check_user_can_transmit(&self, matrix_id: &String, callsign: &Callsign) -> (r: Option<
        &User,
    >)
        ensures
            match self.transmitter_index(matrix_id@, callsign@) {
                Some(i) => r == Some(&self.users@[i]),
                None => r is None,
            },
    {
        let ghost p = user_can_transmit(matrix_id@, callsign@);
        let n = self.users.len();
        let mut i: usize = 0;
        while i < n
            invariant
                n == self.users@.len(),
                i <= n,
                p == user_can_transmit(matrix_id@, callsign@),
                forall|j: int| 0 <= j < i ==> !p(#[trigger] self.users@[j]),
            decreases n - i,
        {
            if self.users[i].check_can_transmit(matrix_id, callsign).is_ok() {
                proof {
                    assert(is_first_where(self.users@, p, i as int));
                    lemma_first_where(self.users@, p, i as int);
                }
                return Some(&self.users[i]);
            }
            i = i + 1;
        }
        proof {
            lemma_first_where(self.users@, p, 0);
        }
        None
    }
}

} // verus!

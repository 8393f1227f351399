//! Identities of stored entities, and their subject-string form.

use vstd::prelude::*;
use vstd::string::*;

verus! {

/// A stored entity's name: the collection it lives in and its key there,
/// e.g. `("user", "42")`.
#[derive(Debug)]
pub struct Identity {
    pub collection: String,
    pub key: String,
}

/// `s` holds no `:`.
pub open spec fn no_colon(s: Seq<char>) -> bool {
    forall|i: int| 0 <= i < s.len() ==> s[i] != ':'
}

/// The subject string `"collection:key"`.
pub open spec fn subject_of(collection: Seq<char>, key: Seq<char>) -> Seq<char> {
    collection + seq![':'] + key
}

/// `id` is an identity that its subject string names unambiguously: neither
/// part holds the separator.
pub open spec fn valid_identity(id: Identity) -> bool {
    no_colon(id.collection@) && no_colon(id.key@)
}

/// `id` is the valid identity written as `s`.
pub open spec fn names(id: Identity, s: Seq<char>) -> bool {
    valid_identity(id) && subject_of(id.collection@, id.key@) == s
}

/// `s` is `"collection:key"` with exactly one `:`.
pub open spec fn is_subject(s: Seq<char>) -> bool {
    exists|c: Seq<char>, k: Seq<char>| no_colon(c) && no_colon(k) && subject_of(c, k) == s
}

/// Two identities with the same collection and key.
pub open spec fn same_identity(a: Identity, b: Identity) -> bool {
    a.collection@ == b.collection@ && a.key@ == b.key@
}

/// In a subject with one separator, the separator stands right after the collection.
proof fn lemma_colon_position(c: Seq<char>, k: Seq<char>, i: int)
    requires
        no_colon(c),
        no_colon(k),
        0 <= i < subject_of(c, k).len(),
        subject_of(c, k)[i] == ':',
    ensures
        i == c.len(),
{
    let s = subject_of(c, k);
    if i < c.len() {
        assert(s[i] == c[i]);
    } else if i > c.len() {
        assert(s[i] == k[i - c.len() - 1]);
    }
}

/// A subject string names at most one identity.
pub proof fn lemma_subject_names_one(a: Identity, b: Identity, s: Seq<char>)
    requires
        names(a, s),
        names(b, s),
    ensures
        same_identity(a, b),
{
    let ca = a.collection@;
    let cb = b.collection@;
    assert(s[ca.len() as int] == ':');
    assert(s[cb.len() as int] == ':');
    lemma_colon_position(ca, a.key@, cb.len() as int);
    assert(ca =~= s.subrange(0, ca.len() as int));
    assert(cb =~= s.subrange(0, cb.len() as int));
    assert(a.key@ =~= s.subrange(ca.len() as int + 1, s.len() as int));
    assert(b.key@ =~= s.subrange(cb.len() as int + 1, s.len() as int));
}

impl PartialEq for Identity {
    fn eq(&self, other: &Identity) -> (r: bool) {
        self.collection == other.collection && self.key == other.key
    }
}

impl vstd::std_specs::cmp::PartialEqSpecImpl for Identity {
    open spec fn obeys_eq_spec() -> bool {
        true
    }

    open spec fn eq_spec(&self, other: &Identity) -> bool {
        same_identity(*self, *other)
    }
}

impl Identity {
    /// The identity `(collection, key)`.
    pub fn new(collection: &str, key: &str) -> (r: Identity)
        ensures
            r.collection@ == collection@,
            r.key@ == key@,
    {
        Identity { collection: String::from_str(collection), key: String::from_str(key) }
    }

    /// A field-by-field copy.
    pub fn duplicate(&self) -> (r: Identity)
        ensures
            same_identity(r, *self),
    {
        Identity { collection: self.collection.clone(), key: self.key.clone() }
    }

    /// Whether both identities have the same collection and key.
    pub fn same_as(&self, other: &Identity) -> (r: bool)
        ensures
            r == same_identity(*self, *other),
    {
        self.collection == other.collection && self.key == other.key
    }

    /// The subject string `"collection:key"` carried in tokens.
    pub fn to_subject(&self) -> (r: String)
        ensures
            r@ == subject_of(self.collection@, self.key@),
    {
        let mut r = self.collection.clone();
        let sep = String::from_str(":");
        proof {
            reveal_strlit(":");
        }
        assert(sep@ =~= seq![':']);
        r.append(sep.as_str());
        r.append(self.key.as_str());
        r
    }

    /// Reads a subject string back into an identity. Exactly one `:` must
    /// separate the collection from the key; any other string is refused.
    pub fn from_subject(s: &str) -> (r: Option<Identity>)
        ensures
            r is Some <==> is_subject(s@),
            r is Some ==> names(r->Some_0, s@),
    {
        let n = s.unicode_len();
        let mut i: usize = 0;
        let mut first: Option<usize> = None;
        while i < n
            invariant
                n == s@.len(),
                i <= n,
                match first {
                    None => no_colon(s@.subrange(0, i as int)),
                    Some(p) => p < i && s@[p as int] == ':' && no_colon(s@.subrange(0, p as int))
                        && no_colon(s@.subrange(p + 1, i as int)),
                },
            decreases n - i,
        {
            let c = s.get_char(i);
            if c == ':' {
                match first {
                    None => {
                        first = Some(i);
                    },
                    Some(p) => {
                        proof {
                            assert(s@[i as int] == ':');
                            if is_subject(s@) {
                                let (cc, kk) = choose|cc: Seq<char>, kk: Seq<char>|
                                    no_colon(cc) && no_colon(kk) && subject_of(cc, kk) == s@;
                                lemma_colon_position(cc, kk, p as int);
                                lemma_colon_position(cc, kk, i as int);
                            }
                        }
                        return None;
                    },
                }
            }
            proof {
                match first {
                    None => {
                        assert(no_colon(s@.subrange(0, i + 1)));
                    },
                    Some(p) => {
                        if p < i {
                            assert(no_colon(s@.subrange(p + 1, i + 1)));
                        } else {
                            assert(s@.subrange(p + 1, i + 1) =~= Seq::<char>::empty());
                        }
                    },
                }
            }
            i = i + 1;
        }
        match first {
            None => {
                proof {
                    if is_subject(s@) {
                        let (cc, kk) = choose|cc: Seq<char>, kk: Seq<char>|
                            no_colon(cc) && no_colon(kk) && subject_of(cc, kk) == s@;
                        assert(s@[cc.len() as int] == ':');
                        assert(s@.subrange(0, n as int)[cc.len() as int] == ':');
                    }
                }
                None
            },
            Some(p) => {
                let collection = s.substring_char(0, p);
                let key = s.substring_char(p + 1, n);
                let id = Identity {
                    collection: String::from_str(collection),
                    key: String::from_str(key),
                };
                assert(subject_of(id.collection@, id.key@) =~= s@);
                assert(names(id, s@));
                Some(id)
            },
        }
    }
}

} // verus!

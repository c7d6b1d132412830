//! Namespace identities: the kernel-assigned inode number that uniquely
//! identifies one live namespace instance of a given kind, and the parser
//! that reads such an identity out of a `/proc/<pid>/ns/<tag>` symlink
//! target.

use vstd::prelude::*;
use vstd::string::StrSliceExecFns;
use vstd::string::StringExecFns;

use crate::digits::all_digits;
use crate::digits::dec_digits;
use crate::digits::digit_val;
use crate::digits::digits_value;
use crate::digits::is_digit;
use crate::digits::lemma_dec_digits_value;
use crate::digits::u32_to_dec;
use crate::kind::Kind;

verus! {

/// The unique identity of one namespace instance: its kernel inode number
/// together with its kind. Two identities are equal exactly when both
/// fields are equal.
#[derive(Debug, PartialEq, Eq, Hash, Clone, Copy, Structural)]
pub struct Namespace {
    pub inum: u32,
    pub kind: Kind,
}

/// How resolving an identity can fail: the symlink target did not carry the
/// `<tag>:[<digits>]` envelope, the digit span was not a valid `u32`, or the
/// OS refused the read or the open (the payload is the OS error code).
#[derive(Debug, PartialEq, Eq, Hash, Clone, Copy, Structural)]
pub enum NsError {
    Format,
    Parse,
    Io(i32),
}

impl Namespace {
    /// An identity from its two fields.
    pub fn new(kind: Kind, inum: u32) -> (r: Namespace)
        ensures
            r == (Namespace { inum, kind }),
    {
        Namespace { inum, kind }
    }

    /// A cgroup-namespace identity.
    pub fn cgroup(inum: u32) -> (r: Namespace)
        ensures
            r == (Namespace { inum, kind: Kind::Cgroup }),
    {
        Self::new(Kind::Cgroup, inum)
    }

    /// An ipc-namespace identity.
    pub fn ipc(inum: u32) -> (r: Namespace)
        ensures
            r == (Namespace { inum, kind: Kind::Ipc }),
    {
        Self::new(Kind::Ipc, inum)
    }

    /// A mount-namespace identity.
    pub fn mnt(inum: u32) -> (r: Namespace)
        ensures
            r == (Namespace { inum, kind: Kind::Mnt }),
    {
        Self::new(Kind::Mnt, inum)
    }

    /// A network-namespace identity.
    pub fn net(inum: u32) -> (r: Namespace)
        ensures
            r == (Namespace { inum, kind: Kind::Net }),
    {
        Self::new(Kind::Net, inum)
    }

    /// A pid-namespace identity.
    pub fn pid(inum: u32) -> (r: Namespace)
        ensures
            r == (Namespace { inum, kind: Kind::Pid }),
    {
        Self::new(Kind::Pid, inum)
    }

    /// A time-namespace identity.
    pub fn time(inum: u32) -> (r: Namespace)
        ensures
            r == (Namespace { inum, kind: Kind::Time }),
    {
        Self::new(Kind::Time, inum)
    }

    /// A user-namespace identity.
    pub fn user(inum: u32) -> (r: Namespace)
        ensures
            r == (Namespace { inum, kind: Kind::User }),
    {
        Self::new(Kind::User, inum)
    }

    /// A uts-namespace identity.
    pub fn uts(inum: u32) -> (r: Namespace)
        ensures
            r == (Namespace { inum, kind: Kind::Uts }),
    {
        Self::new(Kind::Uts, inum)
    }

    /// Whether this identity is of the given kind.
    pub fn is_kind(&self, kind: Kind) -> (r: bool)
        ensures
            r == (self.kind == kind),
    {
        self.kind == kind
    }

    /// The identity in words: `inum=<n> kind=<tag>`.
    pub open spec fn spec_text(self) -> Seq<char> {
        "inum="@ + dec_digits(self.inum as nat) + " kind="@ + self.kind.spec_tag()
    }

    /// Render the identity for diagnostics, as `inum=<n> kind=<tag>`.
    pub fn to_text(&self) -> (r: String)
        ensures
            r@ == self.spec_text(),
    {
        let mut r = String::from_str("inum=");
        let dec = u32_to_dec(self.inum);
        r.append(dec.as_str());
        r.append(" kind=");
        r.append(self.kind.as_str());
        proof {
            assert(r@ =~= self.spec_text());
        }
        r
    }
}

/// Two identities are equal exactly when their kinds and inode numbers both
/// agree; any differing field makes them unequal.
pub proof fn lemma_identity_equality(a: Namespace, b: Namespace)
    ensures
        (a == b) <==> (a.inum == b.inum && a.kind == b.kind),
{
}

/// Whether the symlink target `s` carries the `<tag>:[` prefix and the `]`
/// suffix that envelop the inode number for `kind`.
pub open spec fn envelope_ok(kind: Kind, s: Seq<char>) -> bool {
    &&& s.len() >= kind.spec_tag().len() + 3
    &&& s.subrange(0, kind.spec_tag().len() as int) == kind.spec_tag()
    &&& s[kind.spec_tag().len() as int] == ':'
    &&& s[kind.spec_tag().len() as int + 1] == '['
    &&& s.last() == ']'
}

/// The span between the brackets of a well-enveloped symlink target.
pub open spec fn inner_span(kind: Kind, s: Seq<char>) -> Seq<char>
    recommends
        envelope_ok(kind, s),
{
    s.subrange(kind.spec_tag().len() as int + 2, s.len() as int - 1)
}

/// Whether `s` is a decimal span that a `u32` can hold: not empty, digits
/// only, and no overflow.
pub open spec fn valid_u32_digits(s: Seq<char>) -> bool {
    &&& s.len() > 0
    &&& all_digits(s)
    &&& digits_value(s) <= u32::MAX
}

/// What resolving the symlink target `s` against `kind` returns: a
/// `Format` error when the envelope is missing, a `Parse` error when the
/// enveloped span is not a valid `u32`, and otherwise the identity whose
/// inode number the span writes.
pub open spec fn spec_resolve(kind: Kind, s: Seq<char>) -> Result<Namespace, NsError> {
    if !envelope_ok(kind, s) {
        Err(NsError::Format)
    } else if !valid_u32_digits(inner_span(kind, s)) {
        Err(NsError::Parse)
    } else {
        Ok(Namespace { inum: digits_value(inner_span(kind, s)) as u32, kind })
    }
}

impl Namespace {
    /// Resolve an identity of `kind` from the target text of its
    /// `/proc/<pid>/ns/<tag>` symlink. The text must match exactly
    /// `<tag>:[<digits>]`: anything else is a `Format` error, and a digit
    /// span that is empty, non-numeric or too large for a `u32` is a
    /// `Parse` error.
    pub fn from_link(kind: Kind, link: &str) -> (r: Result<Namespace, NsError>)
        ensures
            r == spec_resolve(kind, link@),
            r is Ok ==> r->Ok_0.kind == kind,
    {
        let n = link.unicode_len();
        let tag = kind.as_str();
        let tlen = tag.unicode_len();
        proof {
            kind.lemma_tag_len();
        }
        if n < tlen + 3 {
            return Err(NsError::Format);
        }
        let mut j: usize = 0;
        while j < tlen
            invariant
                0 <= j <= tlen,
                tlen == kind.spec_tag().len(),
                tag@ == kind.spec_tag(),
                n == link@.len(),
                n >= tlen + 3,
                forall|k: int| 0 <= k < j ==> link@[k] == kind.spec_tag()[k],
            decreases tlen - j,
        {
            if link.get_char(j) != tag.get_char(j) {
                proof {
                    assert(!envelope_ok(kind, link@)) by {
                        if envelope_ok(kind, link@) {
                            assert(link@.subrange(0, kind.spec_tag().len() as int)[j as int]
                                == link@[j as int]);
                        }
                    }
                }
                return Err(NsError::Format);
            }
            j += 1;
        }
        if link.get_char(tlen) != ':' {
            return Err(NsError::Format);
        }
        if link.get_char(tlen + 1) != '[' {
            return Err(NsError::Format);
        }
        if link.get_char(n - 1) != ']' {
            return Err(NsError::Format);
        }
        proof {
            assert(link@.subrange(0, kind.spec_tag().len() as int) =~= kind.spec_tag());
            assert(envelope_ok(kind, link@));
        }
        let start = tlen + 2;
        let end = n - 1;
        if start == end {
            proof {
                assert(inner_span(kind, link@).len() == 0);
            }
            return Err(NsError::Parse);
        }
        let mut i: usize = start;
        let mut acc: u64 = 0;
        let mut over: bool = false;
        while i < end
            invariant
                start <= i <= end,
                start == kind.spec_tag().len() + 2,
                end == link@.len() - 1,
                n == link@.len(),
                envelope_ok(kind, link@),
                forall|k: int| start <= k < i ==> is_digit(#[trigger] link@[k]),
                !over ==> acc == digits_value(link@.subrange(start as int, i as int)) && acc
                    <= u32::MAX as u64,
                over ==> digits_value(link@.subrange(start as int, i as int)) > u32::MAX,
            decreases end - i,
        {
            let c = link.get_char(i);
            let v = c as u32;
            if v < 48 || v > 57 {
                proof {
                    assert(!is_digit(link@[i as int]));
                    assert(inner_span(kind, link@)[i - start] == link@[i as int]);
                    assert(!all_digits(inner_span(kind, link@)));
                }
                return Err(NsError::Parse);
            }
            proof {
                assert(link@.subrange(start as int, i + 1).drop_last() =~= link@.subrange(
                    start as int,
                    i as int,
                ));
                assert(link@.subrange(start as int, i + 1).last() == link@[i as int]);
                assert(digit_val(link@[i as int]) == (v - 48) as nat);
            }
            let d = (v - 48) as u64;
            if over {
                proof {
                    let p = digits_value(link@.subrange(start as int, i as int));
                    assert(digits_value(link@.subrange(start as int, i + 1)) == p * 10 + digit_val(
                        link@[i as int],
                    ));
                    assert(p * 10 + digit_val(link@[i as int]) >= p);
                }
            } else {
                let next = acc * 10 + d;
                if next > u32::MAX as u64 {
                    over = true;
                } else {
                    acc = next;
                }
                proof {
                    assert(digits_value(link@.subrange(start as int, i + 1)) == digits_value(
                        link@.subrange(start as int, i as int),
                    ) * 10 + digit_val(link@[i as int]));
                }
            }
            i += 1;
        }
        proof {
            assert(link@.subrange(start as int, end as int) =~= inner_span(kind, link@));
            assert(all_digits(inner_span(kind, link@)));
            assert(inner_span(kind, link@).len() > 0);
        }
        if over {
            return Err(NsError::Parse);
        }
        let inum = acc as u32;
        proof {
            assert(valid_u32_digits(inner_span(kind, link@)));
        }
        Ok(Namespace { inum, kind })
    }
}

/// Resolution is a function of the link text alone: two resolutions of the
/// same kind against identical symlink targets — as when the process has
/// not changed namespaces between two reads — yield identical identities.
pub proof fn lemma_resolution_deterministic(kind: Kind, a: Seq<char>, b: Seq<char>)
    requires
        a == b,
    ensures
        spec_resolve(kind, a) == spec_resolve(kind, b),
{
}

/// A symlink target that lacks the `<tag>:[` prefix or the `]` suffix
/// resolves to a `Format` error — never to a `Parse` error, never to an
/// identity.
pub proof fn lemma_format_failure(kind: Kind, s: Seq<char>)
    requires
        !envelope_ok(kind, s),
    ensures
        spec_resolve(kind, s) == Err::<Namespace, NsError>(NsError::Format),
{
}

/// A well-enveloped symlink target whose bracketed span is empty,
/// non-numeric or too large for a `u32` resolves to a `Parse` error.
pub proof fn lemma_parse_failure(kind: Kind, s: Seq<char>)
    requires
        envelope_ok(kind, s),
        !valid_u32_digits(inner_span(kind, s)),
    ensures
        spec_resolve(kind, s) == Err::<Namespace, NsError>(NsError::Parse),
{
}

/// The canonical symlink text the kernel exposes for the identity
/// `(kind, inum)`: `<tag>:[<decimal inum>]`.
pub open spec fn spec_link_text(kind: Kind, inum: u32) -> Seq<char> {
    kind.spec_tag() + seq![':', '['] + dec_digits(inum as nat) + seq![']']
}

/// Round trip: resolving the canonical symlink text of any identity gives
/// back exactly that identity — the kind is preserved and the inode number
/// reads back unchanged.
pub proof fn lemma_identity_round_trip(kind: Kind, inum: u32)
    ensures
        spec_resolve(kind, spec_link_text(kind, inum)) == Ok::<Namespace, NsError>(
            Namespace { inum, kind },
        ),
{
    let s = spec_link_text(kind, inum);
    let tlen = kind.spec_tag().len() as int;
    let d = dec_digits(inum as nat);
    lemma_dec_digits_value(inum as nat);
    assert(s.len() == tlen + 2 + d.len() + 1);
    assert(s.subrange(0, tlen) =~= kind.spec_tag());
    assert(s[tlen] == ':');
    assert(s[tlen + 1] == '[');
    assert(s.last() == ']');
    assert(envelope_ok(kind, s));
    assert(inner_span(kind, s) =~= d);
    assert(digits_value(inner_span(kind, s)) == inum as nat);
}

} // verus!

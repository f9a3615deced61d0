use vstd::prelude::*;

use crate::error::ErrorKind;

verus! {

/// Longest address payload a local-domain socket accepts: the kernel's
/// address buffer holds 108 bytes, one of which is reserved (the trailing
/// NUL of a filesystem path, or the leading NUL that marks an abstract name).
pub const ADDR_MAX_LEN: usize = 107;

/// The mathematical value of a [`UnixSocketAddr`].
pub enum AddrView {
    /// No name at all, as for sockets made by `pair` or unbound clients.
    Unnamed,
    /// A filesystem path, as raw bytes.
    Pathname(Seq<u8>),
    /// A Linux abstract-namespace identifier, as raw bytes.
    Abstract(Seq<u8>),
}

#[derive(Debug)]
enum AddrRepr {
    Unnamed,
    Pathname(Vec<u8>),
    Abstract(Vec<u8>),
}

/// An opaque local-domain endpoint identifier: either a filesystem path, an
/// abstract-namespace name, or unnamed. It is an immutable value, only ever
/// compared and passed through to the socket layer.
#[derive(Debug)]
pub struct UnixSocketAddr {
    repr: AddrRepr,
}

impl View for UnixSocketAddr {
    type V = AddrView;

    closed spec fn view(&self) -> AddrView {
        match self.repr {
            AddrRepr::Unnamed => AddrView::Unnamed,
            AddrRepr::Pathname(ref p) => AddrView::Pathname(p@),
            AddrRepr::Abstract(ref a) => AddrView::Abstract(a@),
        }
    }
}

/// What the kernel accepts as an address: a path is non-empty, NUL-free and
/// bounded; an abstract name is bounded but may hold any bytes.
pub open spec fn addr_view_wf(v: AddrView) -> bool {
    match v {
        AddrView::Unnamed => true,
        AddrView::Pathname(p) => {
            &&& 1 <= p.len() <= ADDR_MAX_LEN
            &&& forall|i: int| 0 <= i < p.len() ==> p[i] != 0
        },
        AddrView::Abstract(a) => a.len() <= ADDR_MAX_LEN,
    }
}

impl UnixSocketAddr {
    /// Every address this module hands out satisfies the kernel's limits.
    pub open spec fn wf(&self) -> bool {
        addr_view_wf(self@)
    }

    /// The address of a socket that was never bound.
    pub fn unnamed() -> (r: UnixSocketAddr)
        ensures
            r@ == AddrView::Unnamed,
            r.wf(),
    {
        UnixSocketAddr { repr: AddrRepr::Unnamed }
    }

    /// Builds a filesystem-path address, rejecting what the kernel would
    /// reject: an empty path, an over-long path, or an interior NUL byte.
    pub fn from_pathname(path: Vec<u8>) -> (r: Result<UnixSocketAddr, ErrorKind>)
        ensures
            addr_view_wf(AddrView::Pathname(path@)) <==> r is Ok,
            r matches Ok(a) ==> a@ == AddrView::Pathname(path@) && a.wf(),
            r matches Err(e) ==> e == ErrorKind::InvalidInput,
    {
        if path.len() == 0 || path.len() > ADDR_MAX_LEN {
            return Err(ErrorKind::InvalidInput);
        }
        let mut i: usize = 0;
        while i < path.len()
            invariant
                0 <= i <= path@.len(),
                forall|j: int| 0 <= j < i ==> path@[j] != 0,
            decreases path@.len() - i,
        {
            if path[i] == 0 {
                return Err(ErrorKind::InvalidInput);
            }
            i += 1;
        }
        Ok(UnixSocketAddr { repr: AddrRepr::Pathname(path) })
    }

    /// Builds an abstract-namespace address; only the length is limited.
    pub fn from_abstract_name(name: Vec<u8>) -> (r: Result<UnixSocketAddr, ErrorKind>)
        ensures
            name@.len() <= ADDR_MAX_LEN <==> r is Ok,
            r matches Ok(a) ==> a@ == AddrView::Abstract(name@) && a.wf(),
            r matches Err(e) ==> e == ErrorKind::InvalidInput,
    {
        if name.len() > ADDR_MAX_LEN {
            return Err(ErrorKind::InvalidInput);
        }
        Ok(UnixSocketAddr { repr: AddrRepr::Abstract(name) })
    }

    /// True of an address made by `unnamed`.
    pub fn is_unnamed(&self) -> (r: bool)
        ensures
            r == (self@ is Unnamed),
    {
        matches!(self.repr, AddrRepr::Unnamed)
    }

    /// The path bytes, when this is a filesystem-path address.
    pub fn pathname_bytes(&self) -> (r: Option<&Vec<u8>>)
        ensures
            match r {
                Some(p) => self@ == AddrView::Pathname(p@),
                None => !(self@ is Pathname),
            },
    {
        match self.repr {
            AddrRepr::Pathname(ref p) => Some(p),
            _ => None,
        }
    }

    /// The name bytes, when this is an abstract-namespace address.
    pub fn abstract_name_bytes(&self) -> (r: Option<&Vec<u8>>)
        ensures
            match r {
                Some(a) => self@ == AddrView::Abstract(a@),
                None => !(self@ is Abstract),
            },
    {
        match self.repr {
            AddrRepr::Abstract(ref a) => Some(a),
            _ => None,
        }
    }
}

fn bytes_eq(a: &Vec<u8>, b: &Vec<u8>) -> (r: bool)
    ensures
        r == (a@ == b@),
{
    if a.len() != b.len() {
        assert(a@ != b@) by {
            assert(a@.len() != b@.len());
        }
        return false;
    }
    let mut i: usize = 0;
    while i < a.len()
        invariant
            0 <= i <= a@.len(),
            a@.len() == b@.len(),
            forall|j: int| 0 <= j < i ==> a@[j] == b@[j],
        decreases a@.len() - i,
    {
        if a[i] != b[i] {
            return false;
        }
        i += 1;
    }
    proof {
        assert(a@ =~= b@);
    }
    true
}

impl PartialEq for UnixSocketAddr {
    fn eq(&self, other: &Self) -> (r: bool) {
        let r = match (&self.repr, &other.repr) {
            (AddrRepr::Unnamed, AddrRepr::Unnamed) => true,
            (AddrRepr::Pathname(a), AddrRepr::Pathname(b)) => bytes_eq(a, b),
            (AddrRepr::Abstract(a), AddrRepr::Abstract(b)) => bytes_eq(a, b),
            _ => false,
        };
        r
    }
}

impl vstd::std_specs::cmp::PartialEqSpecImpl for UnixSocketAddr {
    open spec fn obeys_eq_spec() -> bool {
        true
    }

    open spec fn eq_spec(&self, other: &Self) -> bool {
        self@ == other@
    }
}

} // verus!

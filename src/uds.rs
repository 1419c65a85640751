use vstd::prelude::*;

verus! {

/// Bytes before the path in a Unix socket address: the address family.
pub const PATH_OFFSET: u32 = 2;

/// The classification of a Unix socket address.
#[derive(Debug, PartialEq, Eq)]
pub enum AddressKind {
    /// No name: an unbound socket.
    Unnamed,
    /// A filesystem path, without its terminating zero byte.
    Pathname(Vec<u8>),
    /// A name in the abstract namespace, without its leading zero byte.
    Abstract(Vec<u8>),
}

/// An address of a Unix socket as the kernel reports it: the path buffer and
/// the length of the address.
#[derive(Debug)]
pub struct SocketAddr {
    path: Vec<u8>,
    socklen: u32,
}

/// Whether `k` classifies the address with path bytes `path` and address
/// length `socklen`: no name bytes is unnamed, a leading zero byte is
/// abstract, anything else is a path; each carries its name bytes.
pub open spec fn classifies(k: AddressKind, path: Seq<u8>, socklen: u32) -> bool {
    let len = socklen - PATH_OFFSET;
    match k {
        AddressKind::Unnamed => len == 0,
        AddressKind::Abstract(v) => len != 0 && path[0] == 0 && v@ == name_spec(path, socklen),
        AddressKind::Pathname(v) => len != 0 && path[0] != 0 && v@ == name_spec(path, socklen),
    }
}

/// The name bytes of an address: the abstract name after its zero byte, or
/// the path before its terminating zero.
pub open spec fn name_spec(path: Seq<u8>, socklen: u32) -> Seq<u8> {
    let len = socklen - PATH_OFFSET;
    if len == 0 {
        seq![]
    } else if path[0] == 0 {
        path.subrange(1, len as int)
    } else {
        path.subrange(0, len - 1)
    }
}

/// A copy of `v[lo..hi]`.
fn copy_range(v: &Vec<u8>, lo: usize, hi: usize) -> (r: Vec<u8>)
    requires
        lo <= hi <= v@.len(),
    ensures
        r@ == v@.subrange(lo as int, hi as int),
{
    let mut r: Vec<u8> = Vec::new();
    let mut i: usize = lo;
    while i < hi
        invariant
            lo <= i <= hi,
            hi <= v@.len(),
            r@ == v@.subrange(lo as int, i as int),
        decreases hi - i,
    {
        r.push(v[i]);
        i = i + 1;
        assert(r@ =~= v@.subrange(lo as int, i as int));
    }
    r
}

impl SocketAddr {
    pub closed spec fn path_spec(&self) -> Seq<u8> {
        self.path@
    }

    pub closed spec fn socklen_spec(&self) -> u32 {
        self.socklen
    }

    /// The address length covers the family and lies within the buffer.
    pub open spec fn wf_parts(path: Seq<u8>, socklen: u32) -> bool {
        PATH_OFFSET <= socklen && socklen - PATH_OFFSET <= path.len()
    }

    /// The address length fits the buffer.
    #[verifier::type_invariant]
    spec fn inv(&self) -> bool {
        SocketAddr::wf_parts(self.path@, self.socklen)
    }

    /// An address from the path buffer and the length the kernel reported;
    /// `None` if the length does not fit the buffer.
    pub fn new(path: Vec<u8>, socklen: u32) -> (r: Option<SocketAddr>)
        ensures
            r.is_some() <==> SocketAddr::wf_parts(path@, socklen),
            r.is_some() ==> r.unwrap().path_spec() == path@
                && r.unwrap().socklen_spec() == socklen,
    {
        if PATH_OFFSET <= socklen && ((socklen - PATH_OFFSET) as usize) <= path.len() {
            Some(SocketAddr { path, socklen })
        } else {
            None
        }
    }

    /// Classifies the address.
    pub fn address(&self) -> (r: AddressKind)
        ensures
            classifies(r, self.path_spec(), self.socklen_spec()),
    {
        proof {
            use_type_invariant(self);
        }
        let len: usize = (self.socklen - PATH_OFFSET) as usize;
        if len == 0 {
            AddressKind::Unnamed
        } else if self.path[0] == 0 {
            AddressKind::Abstract(copy_range(&self.path, 1, len))
        } else {
            AddressKind::Pathname(copy_range(&self.path, 0, len - 1))
        }
    }

    /// Whether the address is unnamed.
    pub fn is_unnamed(&self) -> (r: bool)
        ensures
            r == (self.socklen_spec() == PATH_OFFSET),
    {
        proof {
            use_type_invariant(self);
        }
        match self.address() {
            AddressKind::Unnamed => true,
            _ => false,
        }
    }

    /// The path, if the address is a filesystem path.
    pub fn as_pathname(&self) -> (r: Option<Vec<u8>>)
        ensures
            r.is_some() <==> (self.socklen_spec() != PATH_OFFSET && self.path_spec()[0] != 0),
            r.is_some() ==> r.unwrap()@ == name_spec(self.path_spec(), self.socklen_spec()),
    {
        proof {
            use_type_invariant(self);
        }
        match self.address() {
            AddressKind::Pathname(p) => Some(p),
            _ => None,
        }
    }

    /// The name, if the address is in the abstract namespace.
    pub fn as_abstract_name(&self) -> (r: Option<Vec<u8>>)
        ensures
            r.is_some() <==> (self.socklen_spec() != PATH_OFFSET && self.path_spec()[0] == 0),
            r.is_some() ==> r.unwrap()@ == name_spec(self.path_spec(), self.socklen_spec()),
    {
        proof {
            use_type_invariant(self);
        }
        match self.address() {
            AddressKind::Abstract(p) => Some(p),
            _ => None,
        }
    }
}

/// The hex digit of a nibble, in lower case.
pub open spec fn hex_digit(n: u8) -> u8 {
    if n < 10 { (0x30 + n) as u8 } else { (0x61 + n - 10) as u8 }
}

/// The ASCII escape of one byte: tab, return, newline, quotes and backslash
/// get a backslash escape; other printable ASCII stands for itself; any other
/// byte becomes `\xNN` in lower-case hex.
pub open spec fn escape_byte_spec(b: u8) -> Seq<u8> {
    if b == 0x09 {
        seq![0x5cu8, 0x74u8]
    } else if b == 0x0d {
        seq![0x5cu8, 0x72u8]
    } else if b == 0x0a {
        seq![0x5cu8, 0x6eu8]
    } else if b == 0x27 || b == 0x22 || b == 0x5c {
        seq![0x5cu8, b]
    } else if 0x20 <= b < 0x7f {
        seq![b]
    } else {
        seq![0x5cu8, 0x78u8, hex_digit(b / 16), hex_digit(b % 16)]
    }
}

/// The ASCII escape of a byte string, byte by byte.
pub open spec fn escape_spec(s: Seq<u8>) -> Seq<u8>
    decreases s.len(),
{
    if s.len() == 0 {
        seq![]
    } else {
        escape_spec(s.drop_last()) + escape_byte_spec(s.last())
    }
}

fn hex(n: u8) -> (r: u8)
    requires
        n < 16,
    ensures
        r == hex_digit(n),
{
    if n < 10 { 0x30 + n } else { 0x61 + n - 10 }
}

/// Appends the ASCII escape of `b` to `out`.
pub fn push_escaped(out: &mut Vec<u8>, b: u8)
    ensures
        final(out)@ == old(out)@ + escape_byte_spec(b),
{
    let ghost start = out@;
    if b == 0x09 {
        out.push(0x5c);
        out.push(0x74);
    } else if b == 0x0d {
        out.push(0x5c);
        out.push(0x72);
    } else if b == 0x0a {
        out.push(0x5c);
        out.push(0x6e);
    } else if b == 0x27 || b == 0x22 || b == 0x5c {
        out.push(0x5c);
        out.push(b);
    } else if 0x20 <= b && b < 0x7f {
        out.push(b);
    } else {
        out.push(0x5c);
        out.push(0x78);
        out.push(hex(b / 16));
        out.push(hex(b % 16));
    }
    assert(out@ =~= start + escape_byte_spec(b));
}

/// The ASCII escape of a name, as it is shown when describing an address.
pub fn escape_ascii(s: &Vec<u8>) -> (r: Vec<u8>)
    ensures
        r@ == escape_spec(s@),
{
    let mut r: Vec<u8> = Vec::new();
    let mut i: usize = 0;
    while i < s.len()
        invariant
            i <= s@.len(),
            r@ == escape_spec(s@.subrange(0, i as int)),
        decreases s.len() - i,
    {
        assert(s@.subrange(0, i as int + 1).drop_last() =~= s@.subrange(0, i as int));
        push_escaped(&mut r, s[i]);
        i = i + 1;
    }
    assert(s@.subrange(0, s@.len() as int) =~= s@);
    r
}

} // verus!

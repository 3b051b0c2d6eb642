use vstd::prelude::*;

verus! {

/// Why an IPv6 extension-header chain could not be walked.
#[derive(Debug, Clone, Copy, PartialEq, Eq)]
pub enum ParseError {
    /// A recognised extension kind did not pass structural validation: the
    /// window is too short for its fixed fields or for its declared length.
    ExtensionParseFailure,
    /// The next-header value names no recognised extension kind.  Never
    /// surfaces from the chain walker: it ends the walk, with the value
    /// taken as the upper-layer protocol.
    UnknownIpv6Extension,
}

/// The recognised IPv6 extension-header kinds.
#[derive(Debug, Clone, Copy, PartialEq, Eq, Structural)]
pub enum Ipv6ExtensionProtocol {
    Hopopt,
    Ipv6Route,
    Ipv6Frag,
    Esp,
    Ah,
    Ipv6Opts,
    MobilityHeader,
    Hip,
    Shim6,
    Test1,
    Test2,
}

/// The extension kind a protocol number names, if any.
pub open spec fn spec_extension_protocol_from(p: u8) -> Option<Ipv6ExtensionProtocol> {
    if p == 0 {
        Some(Ipv6ExtensionProtocol::Hopopt)
    } else if p == 43 {
        Some(Ipv6ExtensionProtocol::Ipv6Route)
    } else if p == 44 {
        Some(Ipv6ExtensionProtocol::Ipv6Frag)
    } else if p == 50 {
        Some(Ipv6ExtensionProtocol::Esp)
    } else if p == 51 {
        Some(Ipv6ExtensionProtocol::Ah)
    } else if p == 60 {
        Some(Ipv6ExtensionProtocol::Ipv6Opts)
    } else if p == 135 {
        Some(Ipv6ExtensionProtocol::MobilityHeader)
    } else if p == 139 {
        Some(Ipv6ExtensionProtocol::Hip)
    } else if p == 140 {
        Some(Ipv6ExtensionProtocol::Shim6)
    } else if p == 253 {
        Some(Ipv6ExtensionProtocol::Test1)
    } else if p == 254 {
        Some(Ipv6ExtensionProtocol::Test2)
    } else {
        None
    }
}

/// Maps a protocol number to the extension kind it names.
pub fn extension_protocol_from_u8(p: u8) -> (r: Option<Ipv6ExtensionProtocol>)
    ensures
        r == spec_extension_protocol_from(p),
{
    match p {
        0 => Some(Ipv6ExtensionProtocol::Hopopt),
        43 => Some(Ipv6ExtensionProtocol::Ipv6Route),
        44 => Some(Ipv6ExtensionProtocol::Ipv6Frag),
        50 => Some(Ipv6ExtensionProtocol::Esp),
        51 => Some(Ipv6ExtensionProtocol::Ah),
        60 => Some(Ipv6ExtensionProtocol::Ipv6Opts),
        135 => Some(Ipv6ExtensionProtocol::MobilityHeader),
        139 => Some(Ipv6ExtensionProtocol::Hip),
        140 => Some(Ipv6ExtensionProtocol::Shim6),
        253 => Some(Ipv6ExtensionProtocol::Test1),
        254 => Some(Ipv6ExtensionProtocol::Test2),
        _ => None,
    }
}

/// One recognised extension header: its kind and the two fixed fields every
/// extension header begins with.
#[derive(Debug, Clone, Copy, PartialEq, Eq, Structural)]
pub struct Ipv6Extension {
    /// The recognised kind the chain walker matched.
    pub protocol: Ipv6ExtensionProtocol,
    /// The protocol of whatever follows this extension.
    pub next_header: u8,
    /// The extension's length in 8-byte units beyond the first.
    pub hdr_ext_len: u8,
}

impl Ipv6Extension {
    /// The next-header value this extension declares.
    pub fn get_next_header(&self) -> (r: u8)
        ensures
            r == self.next_header,
    {
        self.next_header
    }

    /// The declared extension length in 8-byte units beyond the first.
    pub fn get_hdr_ext_len(&self) -> (r: u8)
        ensures
            r == self.hdr_ext_len,
    {
        self.hdr_ext_len
    }
}

/// Holds the chain's extension entries with inline capacity for the common
/// shallow chains (heap-backed only beyond two entries).
#[derive(Debug)]
#[verifier::external_body]
pub struct Ipv6ExtensionList {
    items: smallvec::SmallVec<[Ipv6Extension; 2]>,
}

/// The entries an extension list holds, in order.
pub uninterp spec fn extension_list_seq(v: Ipv6ExtensionList) -> Seq<Ipv6Extension>;

impl View for Ipv6ExtensionList {
    type V = Seq<Ipv6Extension>;

    open spec fn view(&self) -> Seq<Ipv6Extension> {
        extension_list_seq(*self)
    }
}

impl Ipv6ExtensionList {
    /// Relies on smallvec::SmallVec::new: a freshly created vector is empty.
    #[verifier::external_body]
    fn new() -> (r: Self)
        ensures
            extension_list_seq(r) == Seq::<Ipv6Extension>::empty(),
    {
        Ipv6ExtensionList { items: smallvec::SmallVec::new() }
    }

    /// Relies on smallvec::SmallVec::push: appends the element at the back.
    #[verifier::external_body]
    fn push(&mut self, e: Ipv6Extension)
        ensures
            extension_list_seq(*final(self)) == extension_list_seq(*old(self)).push(e),
    {
        self.items.push(e);
    }

    /// Relies on smallvec::SmallVec::len: the number of elements held.
    #[verifier::external_body]
    pub fn len(&self) -> (r: usize)
        ensures
            r == extension_list_seq(*self).len(),
    {
        self.items.len()
    }

    /// Relies on the slice `get` reached through smallvec's Deref: the
    /// element at an in-bounds index, `None` past the end.
    #[verifier::external_body]
    pub fn get(&self, index: usize) -> (r: Option<Ipv6Extension>)
        ensures
            r == (if index < extension_list_seq(*self).len() {
                Some(extension_list_seq(*self)[index as int])
            } else {
                None::<Ipv6Extension>
            }),
    {
        self.items.get(index).copied()
    }
}

/// Ghost shape of a walked extension chain.
#[verifier::ext_equal]
pub struct Ipv6ExtensionsModel {
    pub extensions: Seq<Ipv6Extension>,
    pub next_protocol: u8,
    pub length: int,
}

/// A walked IPv6 extension-header chain.
#[derive(Debug)]
pub struct Ipv6Extensions {
    /// The recognised extension entries, in traversal order.
    pub extensions: Ipv6ExtensionList,
    /// The first next-header value that names no recognised extension kind:
    /// the true upper-layer protocol.
    pub next_protocol: u8,
    /// Total bytes the chain consumes; each entry consumes a whole number of
    /// 8-byte units.
    pub length: usize,
}

impl View for Ipv6Extensions {
    type V = Ipv6ExtensionsModel;

    open spec fn view(&self) -> Ipv6ExtensionsModel {
        Ipv6ExtensionsModel {
            extensions: self.extensions@,
            next_protocol: self.next_protocol,
            length: self.length as int,
        }
    }
}

/// What walking the chain at the start of `b` yields, starting from the
/// header kind that `next_protocol` names.  A protocol number that names no
/// recognised extension kind ends the walk: it is the resolved upper-layer
/// protocol, never an error.  A recognised kind whose window is too short
/// for its two fixed bytes, or for its declared length, fails the walk.
pub open spec fn spec_walk_extensions(b: Seq<u8>, next_protocol: u8) -> Result<
    Ipv6ExtensionsModel,
    ParseError,
>
    decreases b.len(),
{
    match spec_extension_protocol_from(next_protocol) {
        None => Ok(
            Ipv6ExtensionsModel { extensions: Seq::empty(), next_protocol, length: 0 },
        ),
        Some(kind) => {
            if b.len() < 2 {
                Err(ParseError::ExtensionParseFailure)
            } else {
                let ext_len = 8 * (b[1] as int) + 8;
                if ext_len > b.len() {
                    Err(ParseError::ExtensionParseFailure)
                } else {
                    match spec_walk_extensions(b.skip(ext_len), b[0]) {
                        Err(e) => Err(e),
                        Ok(rest) => Ok(
                            Ipv6ExtensionsModel {
                                extensions: seq![
                                    Ipv6Extension {
                                        protocol: kind,
                                        next_header: b[0],
                                        hdr_ext_len: b[1],
                                    },
                                ] + rest.extensions,
                                next_protocol: rest.next_protocol,
                                length: ext_len + rest.length,
                            },
                        ),
                    }
                }
            }
        },
    }
}

/// A walked chain strictly consumes a whole number of 8-byte units per
/// entry, and never more bytes than its window holds.
pub proof fn lemma_chain_consumes_whole_units(b: Seq<u8>, next_protocol: u8)
    ensures
        (match spec_walk_extensions(b, next_protocol) {
            Ok(ext) => ext.length % 8 == 0 && 0 <= ext.length <= b.len(),
            Err(_) => true,
        }),
    decreases b.len(),
{
    match spec_extension_protocol_from(next_protocol) {
        None => {},
        Some(kind) => {
            if b.len() >= 2 {
                let ext_len = 8 * (b[1] as int) + 8;
                if ext_len <= b.len() {
                    lemma_chain_consumes_whole_units(b.skip(ext_len), b[0]);
                }
            }
        },
    }
}

impl Ipv6Extensions {
    /// Walks the chain of recognised extension headers at the start of
    /// `buf`, the first of which is named by `next_protocol`.
    pub fn try_from(buf: &[u8], next_protocol: u8) -> (r: Result<Self, ParseError>)
        ensures
            (match r {
                Ok(e) => spec_walk_extensions(buf@, next_protocol) == Ok::<
                    Ipv6ExtensionsModel,
                    ParseError,
                >(e@) && e.length <= buf@.len(),
                Err(err) => spec_walk_extensions(buf@, next_protocol) == Err::<
                    Ipv6ExtensionsModel,
                    ParseError,
                >(err),
            }),
    {
        let mut extensions = Ipv6ExtensionList::new();
        let mut offset: usize = 0;
        let mut protocol: u8 = next_protocol;
        let mut done = false;
        proof {
            assert(buf@.skip(0) =~= buf@);
        }
        while !done
            invariant
                offset <= buf@.len(),
                done ==> spec_extension_protocol_from(protocol) is None,
                (match spec_walk_extensions(buf@.skip(offset as int), protocol) {
                    Ok(rest) => spec_walk_extensions(buf@, next_protocol) == Ok::<
                        Ipv6ExtensionsModel,
                        ParseError,
                    >(
                        Ipv6ExtensionsModel {
                            extensions: extensions@ + rest.extensions,
                            next_protocol: rest.next_protocol,
                            length: offset + rest.length,
                        },
                    ),
                    Err(e) => spec_walk_extensions(buf@, next_protocol) == Err::<
                        Ipv6ExtensionsModel,
                        ParseError,
                    >(e),
                }),
            decreases buf@.len() - offset, (if done {
                0int
            } else {
                1int
            }),
        {
            let ghost window = buf@.skip(offset as int);
            match extension_protocol_from_u8(protocol) {
                None => {
                    done = true;
                },
                Some(kind) => {
                    if buf.len() - offset < 2 {
                        return Err(ParseError::ExtensionParseFailure);
                    }
                    let nh = buf[offset];
                    let hel = buf[offset + 1];
                    let ext_len: usize = 8 * (hel as usize) + 8;
                    if ext_len > buf.len() - offset {
                        return Err(ParseError::ExtensionParseFailure);
                    }
                    let ghost old_entries = extensions@;
                    extensions.push(
                        Ipv6Extension { protocol: kind, next_header: nh, hdr_ext_len: hel },
                    );
                    proof {
                        assert(window[0] == buf@[offset as int]);
                        assert(window[1] == buf@[offset as int + 1]);
                        assert(window.skip(ext_len as int) =~= buf@.skip(
                            offset as int + ext_len as int,
                        ));
                        let step = spec_walk_extensions(
                            buf@.skip(offset as int + ext_len as int),
                            nh,
                        );
                        if step is Ok {
                            let rest = step->Ok_0;
                            let entry = Ipv6Extension {
                                protocol: kind,
                                next_header: nh,
                                hdr_ext_len: hel,
                            };
                            assert(old_entries + (seq![entry] + rest.extensions) =~= old_entries.push(
                                entry,
                            ) + rest.extensions);
                        }
                    }
                    offset = offset + ext_len;
                    protocol = nh;
                },
            }
        }
        proof {
            assert(extensions@ + Seq::<Ipv6Extension>::empty() =~= extensions@);
        }
        Ok(Ipv6Extensions { extensions, next_protocol: protocol, length: offset })
    }
}

} // verus!

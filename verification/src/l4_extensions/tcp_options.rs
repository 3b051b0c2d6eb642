use crate::l4::TcpPacket;
use vstd::prelude::*;
use vstd::slice::slice_subrange;

verus! {

/// One decoded TCP option.  EOL and NOP are single-byte options reported
/// with length 0 and no data; every other kind carries a length byte and
/// `length - 2` data bytes.
#[derive(Debug, Clone, Copy, PartialEq, Eq)]
pub struct TcpOption<'a> {
    /// The option-kind byte.
    pub number: u8,
    /// The declared total length in bytes (0 for EOL and NOP).
    pub length: u8,
    /// The option's data, borrowed from the options window.
    pub data: &'a [u8],
}

/// Ghost shape of a decoded TCP option.
#[verifier::ext_equal]
pub struct TcpOptionModel {
    pub number: u8,
    pub length: u8,
    pub data: Seq<u8>,
}

impl<'a> View for TcpOption<'a> {
    type V = TcpOptionModel;

    open spec fn view(&self) -> TcpOptionModel {
        TcpOptionModel { number: self.number, length: self.length, data: self.data@ }
    }
}

/// The option at the front of the window, or `None` when the window is empty
/// or its trailing bytes do not frame an option.
pub open spec fn spec_tcp_option(s: Seq<u8>) -> Option<TcpOptionModel> {
    if s.len() == 0 {
        None
    } else {
        let number = s[0];
        if number == 0 || number == 1 {
            Some(TcpOptionModel { number, length: 0, data: Seq::empty() })
        } else if s.len() < 2 {
            None
        } else {
            let len = s[1];
            if len < 2 || len > s.len() {
                None
            } else {
                Some(TcpOptionModel { number, length: len, data: s.subrange(2, len as int) })
            }
        }
    }
}

/// How many window bytes an option consumes: one for EOL and NOP, the
/// declared length otherwise.
pub open spec fn spec_tcp_option_advance(m: TcpOptionModel) -> int {
    if m.number == 0 || m.number == 1 {
        1
    } else {
        m.length as int
    }
}

/// The ordered sequence of options framed by a window; iteration ends at the
/// window's end or at the first malformed trailing option.
pub open spec fn spec_tcp_options(s: Seq<u8>) -> Seq<TcpOptionModel>
    decreases s.len(),
{
    match spec_tcp_option(s) {
        None => Seq::empty(),
        Some(m) => seq![m] + spec_tcp_options(s.skip(spec_tcp_option_advance(m))),
    }
}

impl<'a> TcpOption<'a> {
    /// Decodes the option at the front of `bytes`; `None` when the window is
    /// empty or does not frame an option.
    fn new(bytes: &'a [u8]) -> (r: Option<Self>)
        ensures
            (match spec_tcp_option(bytes@) {
                None => r is None,
                Some(m) => r matches Some(o) && o@ == m,
            }),
    {
        let s = bytes;
        if s.len() == 0 {
            return None;
        }
        let number = s[0];
        if number == 0 || number == 1 {
            let opt = TcpOption { number, length: 0, data: slice_subrange(s, 0, 0) };
            proof {
                assert(opt@.data =~= Seq::<u8>::empty());
            }
            return Some(opt);
        }
        if s.len() < 2 {
            return None;
        }
        let len = s[1];
        if len < 2 {
            return None;
        }
        let l: usize = len as usize;
        if l > s.len() {
            return None;
        }
        Some(TcpOption { number, length: len, data: slice_subrange(s, 2, l) })
    }
}

/// Restartable, forward-only, zero-copy walker over a raw option-bytes
/// window.
pub struct TcpOptionsIterator<'a> {
    bytes: &'a [u8],
}

impl<'a> View for TcpOptionsIterator<'a> {
    type V = Seq<u8>;

    closed spec fn view(&self) -> Seq<u8> {
        self.bytes@
    }
}

impl<'a> TcpOptionsIterator<'a> {
    /// Starts an iterator over a raw option-bytes window.
    pub fn new(bytes: &'a [u8]) -> (r: Self)
        ensures
            r@ == bytes@,
    {
        TcpOptionsIterator { bytes }
    }

    /// Decodes the option at the front of the window and advances past it;
    /// yields nothing further once the window is empty or its trailing bytes
    /// are malformed.
    pub fn next(&mut self) -> (r: Option<TcpOption<'a>>)
        ensures
            (match spec_tcp_option(old(self)@) {
                None => r is None && final(self)@ == old(self)@,
                Some(m) => (r matches Some(o) && o@ == m) && final(self)@ == old(self)@.skip(
                    spec_tcp_option_advance(m),
                ),
            }),
    {
        let s = self.bytes;
        let option = match TcpOption::new(s) {
            Some(o) => o,
            None => {
                return None;
            },
        };
        let advance: usize = if option.number == 0 || option.number == 1 {
            1
        } else {
            option.length as usize
        };
        proof {
            assert(s@.subrange(advance as int, s@.len() as int) =~= s@.skip(
                spec_tcp_option_advance(option@),
            ));
        }
        self.bytes = slice_subrange(s, advance, s.len());
        Some(option)
    }
}

impl<'a> TcpOptionsIterator<'a> {
    /// Drains the iterator into a vector: repeated `next` calls yield
    /// exactly the option sequence the window frames, in order.  (The one
    /// allocating convenience; decoding itself never calls it.)
    pub fn collect_options(self) -> (r: Vec<TcpOption<'a>>)
        ensures
            r@.map_values(|o: TcpOption<'a>| o@) == spec_tcp_options(self@),
    {
        let ghost start = self@;
        let mut it = self;
        let mut out: Vec<TcpOption<'a>> = Vec::new();
        let mut done = false;
        proof {
            assert(Seq::<TcpOptionModel>::empty() + spec_tcp_options(start) =~= spec_tcp_options(
                start,
            ));
            assert(out@.map_values(|o: TcpOption<'a>| o@) =~= Seq::<TcpOptionModel>::empty());
        }
        while !done
            invariant
                spec_tcp_options(start) == out@.map_values(|o: TcpOption<'a>| o@)
                    + spec_tcp_options(it@),
                done ==> spec_tcp_options(it@) == Seq::<TcpOptionModel>::empty(),
            decreases it@.len(), (if done {
                0int
            } else {
                1int
            }),
        {
            let ghost before = it@;
            let ghost mapped = out@.map_values(|o: TcpOption<'a>| o@);
            match it.next() {
                None => {
                    done = true;
                },
                Some(option) => {
                    out.push(option);
                    proof {
                        let m = spec_tcp_option(before)->Some_0;
                        let rest = spec_tcp_options(before.skip(spec_tcp_option_advance(m)));
                        assert(out@.map_values(|o: TcpOption<'a>| o@) =~= mapped.push(m));
                        assert(mapped + (seq![m] + rest) =~= mapped.push(m) + rest);
                    }
                },
            }
        }
        proof {
            assert(out@.map_values(|o: TcpOption<'a>| o@) + Seq::<TcpOptionModel>::empty()
                =~= out@.map_values(|o: TcpOption<'a>| o@));
        }
        out
    }
}

/// Re-constructing an options iterator over the same window yields the same
/// ordered option sequence: what iteration yields is a function of the
/// window's bytes alone, as `new` and `next` promise nothing else.
pub proof fn lemma_tcp_options_iteration_idempotent(w1: Seq<u8>, w2: Seq<u8>)
    requires
        w1 == w2,
    ensures
        spec_tcp_options(w1) == spec_tcp_options(w2),
{
}

impl<'a> TcpPacket<'a> {
    /// An iterator over the raw option bytes; what it will yield is the
    /// option sequence framed by the declared options window.
    pub fn get_options_zero_copy(&self) -> (r: TcpOptionsIterator<'a>)
        ensures
            r@ == crate::l4::spec_tcp_options_window(self@),
            spec_tcp_options(r@) == spec_tcp_options(crate::l4::spec_tcp_options_window(self@)),
    {
        TcpOptionsIterator::new(self.get_options_raw())
    }
}

/// Borrow-based access to the lazy TCP options iterator.
pub trait TcpZeroCopyOptionsIterator {
    /// An iterator over the header's raw option bytes.
    fn get_options_zero_copy(&self) -> TcpOptionsIterator;
}

impl<'a> TcpZeroCopyOptionsIterator for TcpPacket<'a> {
    fn get_options_zero_copy(&self) -> TcpOptionsIterator {
        TcpOptionsIterator::new(self.get_options_raw())
    }
}

} // verus!

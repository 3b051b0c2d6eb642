use vstd::prelude::*;
use vstd::slice::slice_subrange;

verus! {

/// One decoded IPv4 option.  EOL and NOP are single-byte options with no
/// data; every other kind carries a length byte and `length - 2` data bytes.
#[derive(Debug, Clone, Copy, PartialEq, Eq)]
pub struct Ipv4Option<'a> {
    /// The copied flag from the option-type byte.
    pub copied: bool,
    /// The two class bits from the option-type byte.
    pub class: u8,
    /// The five option-number bits from the option-type byte.
    pub number: u8,
    /// The option's total length in bytes (1 for EOL and NOP).
    pub length: u8,
    /// The option's data, borrowed from the options window.
    pub data: &'a [u8],
}

/// Ghost shape of a decoded IPv4 option.
#[verifier::ext_equal]
pub struct Ipv4OptionModel {
    pub copied: bool,
    pub class: u8,
    pub number: u8,
    pub length: u8,
    pub data: Seq<u8>,
}

impl<'a> View for Ipv4Option<'a> {
    type V = Ipv4OptionModel;

    open spec fn view(&self) -> Ipv4OptionModel {
        Ipv4OptionModel {
            copied: self.copied,
            class: self.class,
            number: self.number,
            length: self.length,
            data: self.data@,
        }
    }
}

/// The option at the front of the window, or `None` when the window is empty
/// or its trailing bytes do not frame an option (a length byte under 2, or
/// more data declared than the window holds).
pub open spec fn spec_ipv4_option(s: Seq<u8>) -> Option<Ipv4OptionModel> {
    if s.len() == 0 {
        None
    } else {
        let b0 = s[0];
        let copied = (b0 & 0x80) != 0;
        let class = (b0 & 0x60) >> 5;
        let number = b0 & 0x1f;
        if number == 0 || number == 1 {
            Some(Ipv4OptionModel { copied, class, number, length: 1, data: Seq::empty() })
        } else if s.len() < 2 {
            None
        } else {
            let len = s[1];
            if len < 2 || len > s.len() {
                None
            } else {
                Some(
                    Ipv4OptionModel {
                        copied,
                        class,
                        number,
                        length: len,
                        data: s.subrange(2, len as int),
                    },
                )
            }
        }
    }
}

/// The ordered sequence of options framed by a window: each step consumes
/// the option's length (one byte for EOL and NOP) and iteration ends at the
/// window's end or at the first malformed trailing option.
pub open spec fn spec_ipv4_options(s: Seq<u8>) -> Seq<Ipv4OptionModel>
    decreases s.len(),
{
    match spec_ipv4_option(s) {
        None => Seq::empty(),
        Some(m) => seq![m] + spec_ipv4_options(s.skip(m.length as int)),
    }
}

impl<'a> Ipv4Option<'a> {
    /// Decodes the option at the front of `bytes`; `None` when the window is
    /// empty or does not frame an option.
    fn new(bytes: &'a [u8]) -> (r: Option<Self>)
        ensures
            (match spec_ipv4_option(bytes@) {
                None => r is None,
                Some(m) => r matches Some(o) && o@ == m,
            }),
    {
        let s = bytes;
        if s.len() == 0 {
            return None;
        }
        let b0 = s[0];
        let copied = (b0 & 0x80) != 0;
        let class = (b0 & 0x60) >> 5;
        let number = b0 & 0x1f;
        if number == 0 || number == 1 {
            let opt = Ipv4Option { copied, class, number, length: 1, data: slice_subrange(s, 0, 0) };
            proof {
                assert(opt@.data =~= Seq::<u8>::empty());
            }
            return Some(opt);
        }
        if s.len() < 2 {
            return None;
        }
        let len = s[1];
        if len < 2 {
            return None;
        }
        let l: usize = len as usize;
        if l > s.len() {
            return None;
        }
        Some(Ipv4Option { copied, class, number, length: len, data: slice_subrange(s, 2, l) })
    }
}

/// Restartable, forward-only, zero-copy walker over a raw option-bytes
/// window.
pub struct Ipv4OptionsIterator<'a> {
    bytes: &'a [u8],
}

impl<'a> View for Ipv4OptionsIterator<'a> {
    type V = Seq<u8>;

    closed spec fn view(&self) -> Seq<u8> {
        self.bytes@
    }
}

impl<'a> Ipv4OptionsIterator<'a> {
    /// Starts an iterator over a raw option-bytes window.
    pub fn new(bytes: &'a [u8]) -> (r: Self)
        ensures
            r@ == bytes@,
    {
        Ipv4OptionsIterator { bytes }
    }

    /// Decodes the option at the front of the window and advances past it;
    /// yields nothing further once the window is empty or its trailing bytes
    /// are malformed.
    pub fn next(&mut self) -> (r: Option<Ipv4Option<'a>>)
        ensures
            (match spec_ipv4_option(old(self)@) {
                None => r is None && final(self)@ == old(self)@,
                Some(m) => (r matches Some(o) && o@ == m) && final(self)@ == old(self)@.skip(
                    m.length as int,
                ),
            }),
    {
        let s = self.bytes;
        let option = match Ipv4Option::new(s) {
            Some(o) => o,
            None => {
                return None;
            },
        };
        let advance: usize = option.length as usize;
        proof {
            assert(s@.subrange(advance as int, s@.len() as int) =~= s@.skip(
                option.length as int,
            ));
        }
        self.bytes = slice_subrange(s, advance, s.len());
        Some(option)
    }
}

impl<'a> Ipv4OptionsIterator<'a> {
    /// Drains the iterator into a vector: repeated `next` calls yield
    /// exactly the option sequence the window frames, in order.  (The one
    /// allocating convenience; decoding itself never calls it.)
    pub fn collect_options(self) -> (r: Vec<Ipv4Option<'a>>)
        ensures
            r@.map_values(|o: Ipv4Option<'a>| o@) == spec_ipv4_options(self@),
    {
        let ghost start = self@;
        let mut it = self;
        let mut out: Vec<Ipv4Option<'a>> = Vec::new();
        let mut done = false;
        proof {
            assert(Seq::<Ipv4OptionModel>::empty() + spec_ipv4_options(start) =~= spec_ipv4_options(
                start,
            ));
            assert(out@.map_values(|o: Ipv4Option<'a>| o@) =~= Seq::<Ipv4OptionModel>::empty());
        }
        while !done
            invariant
                spec_ipv4_options(start) == out@.map_values(|o: Ipv4Option<'a>| o@)
                    + spec_ipv4_options(it@),
                done ==> spec_ipv4_options(it@) == Seq::<Ipv4OptionModel>::empty(),
            decreases it@.len(), (if done {
                0int
            } else {
                1int
            }),
        {
            let ghost before = it@;
            let ghost mapped = out@.map_values(|o: Ipv4Option<'a>| o@);
            match it.next() {
                None => {
                    done = true;
                },
                Some(option) => {
                    out.push(option);
                    proof {
                        let m = spec_ipv4_option(before)->Some_0;
                        assert(out@.map_values(|o: Ipv4Option<'a>| o@) =~= mapped.push(m));
                        assert(mapped + (seq![m] + spec_ipv4_options(before.skip(m.length as int)))
                            =~= mapped.push(m) + spec_ipv4_options(before.skip(m.length as int)));
                    }
                },
            }
        }
        proof {
            assert(out@.map_values(|o: Ipv4Option<'a>| o@) + Seq::<Ipv4OptionModel>::empty()
                =~= out@.map_values(|o: Ipv4Option<'a>| o@));
        }
        out
    }
}

/// Re-constructing an options iterator over the same window yields the same
/// ordered option sequence: what iteration yields is a function of the
/// window's bytes alone, as `new` and `next` promise nothing else.
pub proof fn lemma_ipv4_options_iteration_idempotent(w1: Seq<u8>, w2: Seq<u8>)
    requires
        w1 == w2,
    ensures
        spec_ipv4_options(w1) == spec_ipv4_options(w2),
{
}

/// Borrow-based access to the lazy IPv4 options iterator.
pub trait Ipv4ZeroCopyOptionsIterator {
    /// An iterator over the header's raw option bytes.
    fn get_options_zero_copy(&self) -> Ipv4OptionsIterator;
}

impl<'a> Ipv4ZeroCopyOptionsIterator for crate::l3::Ipv4Packet<'a> {
    fn get_options_zero_copy(&self) -> Ipv4OptionsIterator {
        Ipv4OptionsIterator::new(self.get_options_raw())
    }
}

} // verus!

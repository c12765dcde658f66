//! The TCP header: ports, flag bits and window, without options.

use vstd::prelude::*;
use crate::byte_order::{be_hi, be_lo, be_word, join_bytes, split_to_bytes};
use crate::checksum::{
    checksum_of, finalize_checksum, fold_carries, ip_sum, lemma_checksum_verifies, sum_words, word_sum,
};
use crate::headers::{Header, PacketData, ParseError, Protocol, PseudoHeader, TransportHeader};

verus! {

/// Length in bytes of a TCP header without options.
pub const TCP_HEADER_LENGTH: u8 = 20;

/// The number that IP gives to TCP.
pub const TCP_PROTOCOL_NUMBER: u8 = 6;

/// A TCP header under construction, or one decoded from bytes. The network
/// layer's addresses and the payload length must be bound to it before it can
/// be encoded, because the checksum covers them.
pub struct TcpHeader {
    src_port: u16,
    dst_port: u16,
    flags: u8,
    window: u16,
    pseudo_header: Option<PseudoHeader>,
}

/// The control flags of TCP, each one bit of the flag byte.
#[derive(Clone, Copy, Debug, PartialEq, Eq)]
pub enum TcpFlags {
    Urg,
    Ack,
    Psh,
    Rst,
    Syn,
    Fin,
}

impl TcpFlags {
    /// The bit of the flag byte that stands for this flag.
    pub open spec fn mask(self) -> u8 {
        match self {
            TcpFlags::Urg => 0b0010_0000,
            TcpFlags::Ack => 0b0001_0000,
            TcpFlags::Psh => 0b0000_1000,
            TcpFlags::Rst => 0b0000_0100,
            TcpFlags::Syn => 0b0000_0010,
            TcpFlags::Fin => 0b0000_0001,
        }
    }
}

/// What a TCP header holds.
pub struct TcpHeaderView {
    pub src_port: u16,
    pub dst_port: u16,
    pub flags: u8,
    pub window: u16,
    pub pseudo_header: Option<PseudoHeader>,
}

impl TcpHeaderView {
    /// What holds of every header: a bound pseudo-header names TCP, and its
    /// segment is no shorter than the header itself.
    pub open spec fn wf(self) -> bool {
        self.pseudo_header matches Some(bound) ==> bound.protocol == TCP_PROTOCOL_NUMBER
            && bound.data_len >= TCP_HEADER_LENGTH
    }

    /// The flag byte `flags` with the bit of `f` set.
    pub open spec fn with_flag(flags: u8, f: TcpFlags) -> u8 {
        flags | f.mask()
    }

    /// The twenty bytes of the header with `checksum` in the checksum field.
    /// Sequence number, acknowledgment number, data offset and urgent pointer
    /// are zero.
    pub open spec fn layout(self, checksum: u16) -> Seq<u8> {
        seq![
            be_hi(self.src_port),
            be_lo(self.src_port),
            be_hi(self.dst_port),
            be_lo(self.dst_port),
            0u8,
            0u8,
            0u8,
            0u8,
            0u8,
            0u8,
            0u8,
            0u8,
            0u8,
            self.flags,
            be_hi(self.window),
            be_lo(self.window),
            be_hi(checksum),
            be_lo(checksum),
            0u8,
            0u8,
        ]
    }

    /// The accumulator of the checksum: the words of the bound pseudo-header
    /// and those of the header with a zero checksum field.
    pub open spec fn checksum_input(self) -> nat
        recommends
            self.pseudo_header is Some,
    {
        self.pseudo_header->Some_0.word_sum() + word_sum(self.layout(0))
    }

    /// The checksum of the header under its bound pseudo-header.
    pub open spec fn checksum(self) -> u16
        recommends
            self.pseudo_header is Some,
    {
        checksum_of(self.checksum_input()) as u16
    }

    /// The encoding of the header: its layout with its checksum in place.
    pub open spec fn wire(self) -> Seq<u8>
        recommends
            self.pseudo_header is Some,
    {
        self.layout(self.checksum())
    }

    /// The header that the first twenty bytes of `raw` encode. Nothing is
    /// bound to it, and the checksum field is not looked at.
    pub open spec fn decoded(raw: Seq<u8>) -> TcpHeaderView
        recommends
            raw.len() >= 20,
    {
        TcpHeaderView {
            src_port: be_word(raw[0], raw[1]) as u16,
            dst_port: be_word(raw[2], raw[3]) as u16,
            flags: raw[13],
            window: be_word(raw[14], raw[15]) as u16,
            pseudo_header: None,
        }
    }
}

impl View for TcpHeader {
    type V = TcpHeaderView;

    closed spec fn view(&self) -> TcpHeaderView {
        TcpHeaderView {
            src_port: self.src_port,
            dst_port: self.dst_port,
            flags: self.flags,
            window: self.window,
            pseudo_header: self.pseudo_header,
        }
    }
}

impl TcpHeader {
    /// A header between the two ports, with no flag set, the largest window
    /// and nothing bound for the checksum.
    pub fn new(src_port: u16, dst_port: u16) -> (header: Self)
        ensures
            header@ == (TcpHeaderView {
                src_port,
                dst_port,
                flags: 0,
                window: 0xffff,
                pseudo_header: None,
            }),
            header@.wf(),
    {
        TcpHeader { src_port, dst_port, window: 0xffff, flags: 0, pseudo_header: None }
    }

    /// Sets the bit of `f` in the flag byte and leaves all else as it was.
    pub fn set_flag(&mut self, f: TcpFlags)
        ensures
            final(self)@ == (TcpHeaderView {
                flags: TcpHeaderView::with_flag(old(self)@.flags, f),
                ..old(self)@
            }),
    {
        match f {
            TcpFlags::Urg => self.flags = self.flags | 0b00100000,
            TcpFlags::Ack => self.flags = self.flags | 0b00010000,
            TcpFlags::Psh => self.flags = self.flags | 0b00001000,
            TcpFlags::Rst => self.flags = self.flags | 0b00000100,
            TcpFlags::Syn => self.flags = self.flags | 0b00000010,
            TcpFlags::Fin => self.flags = self.flags | 0b00000001,
        }
    }
}

impl TcpHeader {
    pub fn get_src_port(&self) -> (port: u16)
        ensures
            port == self@.src_port,
    {
        self.src_port
    }

    pub fn set_src_port(&mut self, src_port: u16)
        ensures
            final(self)@ == (TcpHeaderView { src_port, ..old(self)@ }),
    {
        self.src_port = src_port;
    }

    pub fn get_dst_port(&self) -> (port: u16)
        ensures
            port == self@.dst_port,
    {
        self.dst_port
    }

    pub fn set_dst_port(&mut self, dst_port: u16)
        ensures
            final(self)@ == (TcpHeaderView { dst_port, ..old(self)@ }),
    {
        self.dst_port = dst_port;
    }

    pub fn get_flags(&self) -> (flags: u8)
        ensures
            flags == self@.flags,
    {
        self.flags
    }

    /// Replaces the whole flag byte.
    pub fn set_flags(&mut self, flags: u8)
        ensures
            final(self)@ == (TcpHeaderView { flags, ..old(self)@ }),
    {
        self.flags = flags;
    }

    pub fn get_window(&self) -> (window: u16)
        ensures
            window == self@.window,
    {
        self.window
    }

    pub fn set_window(&mut self, window: u16)
        ensures
            final(self)@ == (TcpHeaderView { window, ..old(self)@ }),
    {
        self.window = window;
    }

    /// Whether a pseudo-header has been bound.
    pub fn get_pseudo_header_set(&self) -> (bound: bool)
        ensures
            bound == (self@.pseudo_header is Some),
    {
        self.pseudo_header.is_some()
    }
}

impl TransportHeader for TcpHeader {
    open spec fn protocol_number() -> u8 {
        TCP_PROTOCOL_NUMBER
    }

    open spec fn pseudo_header(&self) -> Option<PseudoHeader> {
        self@.pseudo_header
    }

    /// Binds the addresses and, as segment length, the payload length plus
    /// the header's twenty bytes. An earlier binding is replaced.
    fn set_pseudo_header(&mut self, src_ip: [u8; 4], dst_ip: [u8; 4], data_len: u16)
        ensures
            final(self)@ == (TcpHeaderView {
                pseudo_header: Some(
                    (PseudoHeader {
                        src_ip,
                        dst_ip,
                        protocol: TCP_PROTOCOL_NUMBER,
                        data_len: (data_len + 20) as u16,
                    }),
                ),
                ..old(self)@
            }),
            final(self)@.wf(),
    {
        self.pseudo_header = Some(
            PseudoHeader {
                src_ip,
                dst_ip,
                protocol: TCP_PROTOCOL_NUMBER,
                data_len: data_len + 20,
            },
        );
    }
}

impl Header for TcpHeader {
    open spec fn complete(&self) -> bool {
        self@.pseudo_header is Some
    }

    open spec fn length(&self) -> nat {
        TCP_HEADER_LENGTH as nat
    }

    open spec fn min_length() -> nat {
        TCP_HEADER_LENGTH as nat
    }

    open spec fn proto() -> Protocol {
        Protocol::TCP
    }

    /// Lays the header out in twenty bytes and writes the checksum over the
    /// bound pseudo-header and those bytes into its field.
    fn make(self) -> (packet: PacketData)
        ensures
            packet@ == self@.wire(),
    {
        let src_p = split_to_bytes(self.src_port);
        let dst_p = split_to_bytes(self.dst_port);
        let window_bytes = split_to_bytes(self.window);
        let mut packet: Vec<u8> = vec![
            src_p[0],
            src_p[1],
            dst_p[0],
            dst_p[1],
            0,
            0,
            0,
            0,
            0,
            0,
            0,
            0,
            0,
            self.flags,
            window_bytes[0],
            window_bytes[1],
            0,
            0,
            0,
            0,
        ];
        assert(packet@ =~= self@.layout(0));
        let pseudo_header = self.pseudo_header.unwrap();
        let mut val: u32 = 0;
        val += ip_sum(pseudo_header.src_ip);
        val += ip_sum(pseudo_header.dst_ip);
        val += pseudo_header.protocol as u32;
        val += pseudo_header.data_len as u32;
        proof {
            lemma_layout_word_sum(self@, 0);
        }
        val += sum_words(packet.as_slice());
        let checksum = split_to_bytes(finalize_checksum(val));
        packet.set(16, checksum[0]);
        packet.set(17, checksum[1]);
        assert(packet@ =~= self@.wire());
        packet
    }

    /// Reads ports, flags and window from the first twenty bytes. The
    /// checksum is not verified and nothing is bound to the result.
    fn parse(raw_data: &[u8]) -> (parsed: Result<Box<Self>, ParseError>)
        ensures
            parsed is Ok ==> parsed->Ok_0@ == TcpHeaderView::decoded(raw_data@),
            parsed is Ok ==> parsed->Ok_0@.wf(),
    {
        if raw_data.len() < TCP_HEADER_LENGTH as usize {
            return Err(ParseError::InvalidLength);
        }
        Ok(
            Box::new(
                TcpHeader {
                    src_port: join_bytes(raw_data[0], raw_data[1]),
                    dst_port: join_bytes(raw_data[2], raw_data[3]),
                    flags: raw_data[13],
                    window: join_bytes(raw_data[14], raw_data[15]),
                    pseudo_header: None,
                },
            ),
        )
    }

    fn get_proto(&self) -> (proto: Protocol) {
        Protocol::TCP
    }

    fn get_length(&self) -> (length: u8) {
        TCP_HEADER_LENGTH
    }

    fn get_min_length() -> (length: u8) {
        TCP_HEADER_LENGTH
    }
}

/// The words of a header's layout add up to its ports, its flag byte, its
/// window and the checksum in its checksum field.
pub proof fn lemma_layout_word_sum(header: TcpHeaderView, checksum: u16)
    ensures
        header.layout(checksum).len() == 20,
        word_sum(header.layout(checksum)) == header.src_port + header.dst_port + header.flags
            + header.window + checksum,
{
    reveal_with_fuel(crate::checksum::leading_words_sum, 11);
}

/// The checksum that `make` writes is the complement of the folded sum over
/// the pseudo-header and the header with a zero checksum field; and the
/// encoding checks out: summed again with the checksum in place, it folds to
/// all ones, whose complement is zero.
pub proof fn lemma_wire_checksum_verifies(header: TcpHeaderView)
    requires
        header.pseudo_header is Some,
    ensures
        header.wire() == header.layout(header.checksum()),
        header.checksum() == 0xffff - fold_carries(header.checksum_input()),
        fold_carries(header.pseudo_header->Some_0.word_sum() + word_sum(header.wire()))
            == 0xffff,
        checksum_of(header.pseudo_header->Some_0.word_sum() + word_sum(header.wire())) == 0,
{
    lemma_checksum_verifies(header.checksum_input());
    lemma_layout_word_sum(header, 0);
    lemma_layout_word_sum(header, header.checksum());
}

/// Decoding what `make` wrote gives the header's ports, flags and window
/// back, with nothing bound.
pub proof fn lemma_decoded_wire(header: TcpHeaderView)
    ensures
        TcpHeaderView::decoded(header.wire()) == (TcpHeaderView {
            pseudo_header: None,
            ..header
        }),
{
}

/// Decoding looks at the first twenty bytes only: two buffers that agree on
/// them decode to the same header.
pub proof fn lemma_decoded_reads_header_only(a: Seq<u8>, b: Seq<u8>)
    requires
        a.len() >= 20,
        b.len() >= 20,
        a.take(20) == b.take(20),
    ensures
        TcpHeaderView::decoded(a) == TcpHeaderView::decoded(b),
{
    assert forall|i: int| 0 <= i < 20 implies a[i] == b[i] by {
        assert(a[i] == a.take(20)[i]);
        assert(b[i] == b.take(20)[i]);
    }
}

/// Setting a flag that is set already changes nothing.
pub proof fn lemma_set_flag_idempotent(flags: u8, f: TcpFlags)
    ensures
        TcpHeaderView::with_flag(TcpHeaderView::with_flag(flags, f), f) == TcpHeaderView::with_flag(
            flags,
            f,
        ),
{
    let m = f.mask();
    assert((flags | m) | m == flags | m) by (bit_vector);
}

/// Setting a flag clears no bit that was set, and sets its own.
pub proof fn lemma_set_flag_keeps_bits(flags: u8, f: TcpFlags)
    ensures
        TcpHeaderView::with_flag(flags, f) & flags == flags,
        TcpHeaderView::with_flag(flags, f) & f.mask() == f.mask(),
{
    let m = f.mask();
    assert((flags | m) & flags == flags && (flags | m) & m == m) by (bit_vector);
}

/// The order in which two flags are set does not matter.
pub proof fn lemma_set_flag_commutes(flags: u8, f: TcpFlags, g: TcpFlags)
    ensures
        TcpHeaderView::with_flag(TcpHeaderView::with_flag(flags, f), g) == TcpHeaderView::with_flag(
            TcpHeaderView::with_flag(flags, g),
            f,
        ),
{
    let m = f.mask();
    let n = g.mask();
    assert((flags | m) | n == (flags | n) | m) by (bit_vector);
}

} // verus!

use vstd::prelude::*;

verus! {

/// First byte of every request: the sync nibble with its reserved bits.
pub const SYNC_BYTE: u8 = 0xA5;

/// First byte of the preamble of a reply.
pub const REPLY_SYNC: u8 = 0x05;

/// Second byte of the preamble of a reply: the master address.
pub const REPLY_MASTER: u8 = 0xFF;

/// Interface transmission counter: incremented by the chip on each write it accepts.
pub const IFCNT_REGISTER: u8 = 0x02;

/// Number of addresses on the bus.
pub const SLAVE_SLOTS: usize = 4;

/// Failure of an exchange with a TMC2209; `E` is the error type of the byte stream.
#[derive(Debug, Clone, Copy, PartialEq, Eq)]
pub enum UartError<E> {
    /// Sending failed.
    TxError(E),
    /// Receiving failed.
    RxError(E),
    /// The checksum of a reply does not match its bytes.
    CrcMismatch,
    /// The stream ended inside a reply.
    UnexpectedEos,
    /// No driver was found at this address at start-up.
    UnpopulatedAddress,
    /// The transmission counter did not move: the write did not take.
    IncorrectIfcnt,
    /// A reply came for another register than the one asked for.
    UnexpectedAddress { expected: u8, got: u8 },
}

/// The CRC register after one bit of `byte` (bit `i`, least significant first) has gone in.
pub open spec fn crc_bit(crc: u8, byte: u8, i: u8) -> u8 {
    if ((crc >> 7u8) ^ ((byte >> i) & 1u8)) != 0 {
        ((crc << 1u8) ^ 0x07u8) as u8
    } else {
        (crc << 1u8) as u8
    }
}

/// The CRC register after the first `n` bits of `byte` have gone in.
pub open spec fn crc_bits(crc: u8, byte: u8, n: nat) -> u8
    decreases n,
{
    if n == 0 {
        crc
    } else {
        crc_bit(crc_bits(crc, byte, (n - 1) as nat), byte, (n - 1) as u8)
    }
}

/// CRC-8 of a frame as the TMC2209 computes it: polynomial 0x07, initial value 0, each byte
/// taken least significant bit first.
pub open spec fn crc_of(s: Seq<u8>) -> u8
    decreases s.len(),
{
    if s.len() == 0 {
        0
    } else {
        crc_bits(crc_of(s.drop_last()), s.last(), 8)
    }
}

/// The four bytes of `x`, most significant first.
pub open spec fn be_bytes(x: u32) -> Seq<u8> {
    seq![
        #[verifier::truncate]
        ((x >> 24u32) as u8),
        #[verifier::truncate]
        ((x >> 16u32) as u8),
        #[verifier::truncate]
        ((x >> 8u32) as u8),
        #[verifier::truncate]
        (x as u8),
    ]
}

/// The `u32` whose bytes, most significant first, are `b[0..4]`.
pub open spec fn from_be(b: Seq<u8>) -> u32 {
    ((b[0] as u32) << 24u32) | ((b[1] as u32) << 16u32) | ((b[2] as u32) << 8u32) | (b[3] as u32)
}

/// `s` followed by its CRC.
pub open spec fn with_crc(s: Seq<u8>) -> Seq<u8> {
    s.push(crc_of(s))
}

/// The frame that writes `data` to `register` of the driver at `slave_address`.
pub open spec fn write_frame(slave_address: u8, register: u8, data: u32) -> Seq<u8> {
    with_crc(seq![SYNC_BYTE, slave_address, register | 0x80u8] + be_bytes(data))
}

/// The frame that asks the driver at `slave_address` for the value of `register`.
pub open spec fn read_frame(slave_address: u8, register: u8) -> Seq<u8> {
    with_crc(seq![SYNC_BYTE, slave_address & 0x7Fu8, register])
}

/// The reply that a driver sends with the value `data` of `register`.
pub open spec fn reply_frame(register: u8, data: u32) -> Seq<u8> {
    with_crc(seq![REPLY_SYNC, REPLY_MASTER, register] + be_bytes(data))
}

/// A reply preamble starts at `i` in `s`.
pub open spec fn preamble_at(s: Seq<u8>, i: int) -> bool {
    s[i] == REPLY_SYNC && s[i + 1] == REPLY_MASTER
}

/// The first `i >= from` at which a preamble starts within `s[..len]`.
pub open spec fn first_preamble_from(s: Seq<u8>, len: int, from: int) -> Option<int>
    decreases len - from,
{
    if from < 0 || from + 1 >= len {
        None
    } else if preamble_at(s, from) {
        Some(from)
    } else {
        first_preamble_from(s, len, from + 1)
    }
}

/// What a received reply frame `f` stands for, when `register` was asked for.
pub open spec fn decode_spec<E>(f: Seq<u8>, register: u8) -> Result<u32, UartError<E>> {
    if f[2] != register & 0x7Fu8 {
        Err(UartError::UnexpectedAddress { expected: register, got: f[2] })
    } else if crc_of(f.take(7)) != f[7] {
        Err(UartError::CrcMismatch)
    } else {
        Ok(from_be(f.subrange(3, 7)))
    }
}

fn crc_of_prefix(message: &[u8], n: usize) -> (r: u8)
    requires
        n <= message@.len(),
    ensures
        r == crc_of(message@.take(n as int)),
{
    let mut crc: u8 = 0;
    let mut k: usize = 0;
    assert(message@.take(0) =~= Seq::<u8>::empty());
    while k < n
        invariant
            k <= n,
            n <= message@.len(),
            crc == crc_of(message@.take(k as int)),
        decreases n - k,
    {
        let byte = message[k];
        let ghost start = crc;
        let mut i: u8 = 0;
        while i < 8
            invariant
                i <= 8,
                crc == crc_bits(start, byte, i as nat),
            decreases 8 - i,
        {
            crc = if ((crc >> 7u8) ^ ((byte >> i) & 1u8)) != 0 {
                (crc << 1u8) ^ 0x07u8
            } else {
                crc << 1u8
            };
            i = i + 1;
        }
        assert(message@.take(k + 1).drop_last() =~= message@.take(k as int));
        k = k + 1;
    }
    crc
}

/// CRC of `message`, as the TMC2209 checks it.
pub fn calc_uart_crc(message: &[u8]) -> (r: u8)
    ensures
        r == crc_of(message@),
{
    assert(message@.take(message@.len() as int) =~= message@);
    crc_of_prefix(message, message.len())
}

/// The frame that writes `data` to `register` of the driver at `slave_address`.
pub fn construct_write_uart_message(slave_address: u8, register: u8, data: u32) -> (r: [u8; 8])
    ensures
        r@ == write_frame(slave_address, register, data),
{
    let d3 = #[verifier::truncate] ((data >> 24u32) as u8);
    let d2 = #[verifier::truncate] ((data >> 16u32) as u8);
    let d1 = #[verifier::truncate] ((data >> 8u32) as u8);
    let d0 = #[verifier::truncate] (data as u8);
    let mut msg: [u8; 8] = [SYNC_BYTE, slave_address, register | 0x80, d3, d2, d1, d0, 0];
    let ghost head = seq![SYNC_BYTE, slave_address, register | 0x80u8] + be_bytes(data);
    assert(msg@.take(7) =~= head);
    let crc = crc_of_prefix(&msg, 7);
    msg[7] = crc;
    assert(msg@ =~= with_crc(head));
    msg
}

/// The frame that asks the driver at `slave_address` for the value of `register`.
pub fn construct_read_uart_message(slave_address: u8, register: u8) -> (r: [u8; 4])
    ensures
        r@ == read_frame(slave_address, register),
{
    let mut msg: [u8; 4] = [SYNC_BYTE, slave_address & 0x7F, register, 0];
    let ghost head = seq![SYNC_BYTE, slave_address & 0x7Fu8, register];
    assert(msg@.take(3) =~= head);
    let crc = crc_of_prefix(&msg, 3);
    msg[3] = crc;
    assert(msg@ =~= with_crc(head));
    msg
}

/// Position of the first reply preamble within `bytes[..len]`.
pub fn find_reply_start(bytes: &[u8], len: usize) -> (r: Option<usize>)
    requires
        len <= bytes@.len(),
    ensures
        match first_preamble_from(bytes@, len as int, 0) {
            Some(i) => r == Some(i as usize),
            None => r is None,
        },
{
    let mut i: usize = 0;
    while i < len && i + 1 < len
        invariant
            len <= bytes@.len(),
            first_preamble_from(bytes@, len as int, 0) == first_preamble_from(
                bytes@,
                len as int,
                i as int,
            ),
        decreases len - i,
    {
        if bytes[i] == REPLY_SYNC && bytes[i + 1] == REPLY_MASTER {
            return Some(i);
        }
        i = i + 1;
    }
    None
}

/// Looks for a reply in the `len` bytes just received into `buffer`. Where a preamble starts,
/// the bytes from there on move to the front of the buffer, and the number of reply bytes now
/// at its front is returned: the rest of the reply fills the buffer after them.
pub fn align_reply(buffer: &mut [u8; 8], len: usize) -> (r: Option<usize>)
    requires
        len <= 8,
    ensures
        match first_preamble_from(old(buffer)@, len as int, 0) {
            Some(start) => {
                &&& r == Some((len - start) as usize)
                &&& final(buffer)@ == old(buffer)@.subrange(start, len as int) + old(
                    buffer,
                )@.subrange(len - start, 8)
            },
            None => r is None && final(buffer)@ == old(buffer)@,
        },
{
    proof {
        lemma_first_preamble_bounds(buffer@, len as int, 0);
    }
    match find_reply_start(buffer, len) {
        None => None,
        Some(start) => {
            let end = len - start;
            let ghost before = buffer@;
            let mut k: usize = 0;
            while k < end
                invariant
                    end == len - start,
                    start + 1 < len <= 8,
                    k <= end,
                    buffer@.len() == 8,
                    before.len() == 8,
                    buffer@.subrange(0, k as int) == before.subrange(
                        start as int,
                        start + k,
                    ),
                    buffer@.subrange(k as int, 8) == before.subrange(k as int, 8),
                decreases end - k,
            {
                let b = buffer[start + k];
                let ghost prev = buffer@;
                assert(b == before[start + k]) by {
                    assert(prev.subrange(k as int, 8)[start as int] == prev[start + k]);
                }
                assert(prev.subrange(k + 1, 8) =~= prev.subrange(k as int, 8).subrange(1, 8 - k));
                assert(before.subrange(k + 1, 8) =~= before.subrange(k as int, 8).subrange(
                    1,
                    8 - k,
                ));
                buffer[k] = b;
                assert(buffer@.subrange(0, k + 1) =~= before.subrange(
                    start as int,
                    start + k + 1,
                ));
                assert(buffer@.subrange(k + 1, 8) =~= before.subrange(k + 1, 8));
                k = k + 1;
            }
            assert(buffer@ =~= buffer@.subrange(0, end as int) + buffer@.subrange(end as int, 8));
            Some(end)
        },
    }
}

/// The value in a reply frame to a read of `register`. It fails with `UnexpectedAddress` where
/// the frame names another register, and with `CrcMismatch` where its checksum is wrong.
pub fn decode_reply<E>(frame: &[u8; 8], register: u8) -> (r: Result<u32, UartError<E>>)
    ensures
        r == decode_spec::<E>(frame@, register),
{
    if frame[2] != register & 0x7F {
        return Err(UartError::UnexpectedAddress { expected: register, got: frame[2] });
    }
    if crc_of_prefix(frame, 7) != frame[7] {
        return Err(UartError::CrcMismatch);
    }
    let value = ((frame[3] as u32) << 24u32) | ((frame[4] as u32) << 16u32) | ((frame[5] as u32)
        << 8u32) | (frame[6] as u32);
    assert(value == from_be(frame@.subrange(3, 7)));
    Ok(value)
}

/// The four bytes of a write frame after its header decode to the value written, and its last
/// byte is the checksum of the rest.
pub proof fn lemma_write_frame_payload(slave_address: u8, register: u8, data: u32)
    ensures
        write_frame(slave_address, register, data).len() == 8,
        from_be(write_frame(slave_address, register, data).subrange(3, 7)) == data,
        write_frame(slave_address, register, data)[7] == crc_of(
            write_frame(slave_address, register, data).take(7),
        ),
{
    let f = write_frame(slave_address, register, data);
    let head = seq![SYNC_BYTE, slave_address, register | 0x80u8] + be_bytes(data);
    assert(f.take(7) =~= head);
    assert(f.subrange(3, 7) =~= be_bytes(data));
    lemma_be_round_trip(data);
}

/// Decoding the bytes of `x`, most significant first, gives back `x`.
pub proof fn lemma_be_round_trip(x: u32)
    ensures
        from_be(be_bytes(x)) == x,
{
    let b = be_bytes(x);
    let b0 = b[0];
    let b1 = b[1];
    let b2 = b[2];
    let b3 = b[3];
    assert(b0 == #[verifier::truncate] ((x >> 24u32) as u8));
    assert(b3 == #[verifier::truncate] (x as u8));
    assert(((b0 as u32) << 24u32) | ((b1 as u32) << 16u32) | ((b2 as u32) << 8u32) | (b3 as u32)
        == x) by (bit_vector)
        requires
            b0 == #[verifier::truncate] ((x >> 24u32) as u8),
            b1 == #[verifier::truncate] ((x >> 16u32) as u8),
            b2 == #[verifier::truncate] ((x >> 8u32) as u8),
            b3 == #[verifier::truncate] (x as u8),
    ;
}

/// A reply to a read of `register` (below 0x80) that arrived intact decodes to the value sent.
pub proof fn lemma_reply_round_trip<E>(register: u8, data: u32)
    requires
        register < 0x80,
    ensures
        decode_spec::<E>(reply_frame(register, data), register) == Ok::<u32, UartError<E>>(data),
{
    let f = reply_frame(register, data);
    let head = seq![REPLY_SYNC, REPLY_MASTER, register] + be_bytes(data);
    assert(f.take(7) =~= head);
    assert(f.subrange(3, 7) =~= be_bytes(data));
    assert(register & 0x7Fu8 == register) by (bit_vector)
        requires
            register < 0x80u8,
    ;
    lemma_be_round_trip(data);
}

/// Wherever the first preamble in the received bytes starts, the scan finds it there.
pub proof fn lemma_preamble_located(s: Seq<u8>, len: int, start: int)
    requires
        0 <= start,
        start + 1 < len <= s.len(),
        preamble_at(s, start),
        forall|j: int| 0 <= j < start ==> !preamble_at(s, j),
    ensures
        first_preamble_from(s, len, 0) == Some(start),
{
    lemma_preamble_from(s, len, start, 0);
}

proof fn lemma_preamble_from(s: Seq<u8>, len: int, start: int, from: int)
    requires
        0 <= from <= start,
        start + 1 < len <= s.len(),
        preamble_at(s, start),
        forall|j: int| from <= j < start ==> !preamble_at(s, j),
    ensures
        first_preamble_from(s, len, from) == Some(start),
    decreases start - from,
{
    if from < start {
        lemma_preamble_from(s, len, start, from + 1);
    }
}

/// Where the scan finds a preamble, it is one, within the received bytes.
pub proof fn lemma_first_preamble_bounds(s: Seq<u8>, len: int, from: int)
    ensures
        first_preamble_from(s, len, from) matches Some(i) ==> from <= i && 0 <= i && i + 1 < len
            && preamble_at(s, i),
    decreases len - from,
{
    if from >= 0 && from + 1 < len && !preamble_at(s, from) {
        lemma_first_preamble_bounds(s, len, from + 1);
    }
}

/// The shadow of a slot of `table`: `None` where the address is out of range or absent.
pub open spec fn slot(table: Seq<Option<u8>>, slave_address: u8) -> Option<u8> {
    if (slave_address as int) < SLAVE_SLOTS {
        table[slave_address as int]
    } else {
        None
    }
}

/// The bus side of a TMC2209 driver: which addresses hold a driver, with an in-memory shadow of
/// each one's interface transmission counter (IFCNT). It builds the frames to send and judges
/// the replies; the byte stream itself belongs to the caller.
pub struct Tmc2209 {
    ifcnt: [Option<u8>; 4],
}

impl View for Tmc2209 {
    type V = Seq<Option<u8>>;

    closed spec fn view(&self) -> Seq<Option<u8>> {
        self.ifcnt@
    }
}

impl Tmc2209 {
    /// A driver table with the addresses in `addrs_present` populated, each counter at 0 until
    /// it has been read from the chip.
    pub fn new(addrs_present: [bool; 4]) -> (r: Tmc2209)
        ensures
            r@.len() == SLAVE_SLOTS,
            forall|i: int|
                0 <= i < SLAVE_SLOTS ==> r@[i] == if addrs_present@[i] {
                    Some(0u8)
                } else {
                    None
                },
    {
        let mut ifcnt: [Option<u8>; 4] = [None, None, None, None];
        let mut i: usize = 0;
        while i < 4
            invariant
                i <= 4,
                ifcnt@.len() == 4,
                forall|j: int|
                    0 <= j < 4 ==> ifcnt@[j] == if j < i && addrs_present@[j] {
                        Some(0u8)
                    } else {
                        None
                    },
            decreases 4 - i,
        {
            if addrs_present[i] {
                ifcnt[i] = Some(0);
            }
            i = i + 1;
        }
        Tmc2209 { ifcnt }
    }

    /// The counter shadow at `slave_address`, or `None` where no driver is there.
    pub fn ifcnt(&self, slave_address: u8) -> (r: Option<u8>)
        ensures
            r == slot(self@, slave_address),
    {
        if (slave_address as usize) < SLAVE_SLOTS {
            self.ifcnt[slave_address as usize]
        } else {
            None
        }
    }

    /// A driver sits at `slave_address`.
    pub fn is_present(&self, slave_address: u8) -> (r: bool)
        ensures
            r == slot(self@, slave_address) is Some,
    {
        self.ifcnt(slave_address).is_some()
    }

    /// Records the IFCNT register value read from the driver at `slave_address`: its low 8 bits
    /// become the shadow. An absent address is left as it is.
    pub fn set_ifcnt(&mut self, slave_address: u8, reading: u32)
        ensures
            slot(old(self)@, slave_address) is Some ==> final(self)@ == old(self)@.update(
                slave_address as int,
                Some(#[verifier::truncate] (reading as u8)),
            ),
            slot(old(self)@, slave_address) is None ==> final(self)@ == old(self)@,
    {
        if self.is_present(slave_address) {
            self.ifcnt[slave_address as usize] = Some(#[verifier::truncate] (reading as u8));
        }
    }

    /// The frame that writes `data` to `register` of the driver at `slave_address`, or
    /// `UnpopulatedAddress` where no driver is there.
    pub fn write_frame<E>(&self, slave_address: u8, register: u8, data: u32) -> (r: Result<
        [u8; 8],
        UartError<E>,
    >)
        ensures
            slot(self@, slave_address) is None ==> r == Err::<[u8; 8], _>(
                UartError::<E>::UnpopulatedAddress,
            ),
            slot(self@, slave_address) is Some ==> (r matches Ok(f) && f@ == write_frame(
                slave_address,
                register,
                data,
            )),
    {
        if self.is_present(slave_address) {
            Ok(construct_write_uart_message(slave_address, register, data))
        } else {
            Err(UartError::UnpopulatedAddress)
        }
    }

    /// Records that a write frame went out to `slave_address`: the chip counts it, and so does
    /// the shadow, modulo 256.
    pub fn record_write(&mut self, slave_address: u8)
        ensures
            slot(old(self)@, slave_address) matches Some(c) ==> final(self)@ == old(self)@.update(
                slave_address as int,
                Some(if c == 255 {
                    0u8
                } else {
                    (c + 1) as u8
                }),
            ),
            slot(old(self)@, slave_address) is None ==> final(self)@ == old(self)@,
    {
        if let Some(c) = self.ifcnt(slave_address) {
            self.ifcnt[slave_address as usize] = Some(c.wrapping_add(1));
        }
    }

    /// Judges a write from the IFCNT value read back after it: it took where the low 8 bits
    /// equal the shadow; otherwise `IncorrectIfcnt`. `UnpopulatedAddress` where no driver is at
    /// `slave_address`.
    pub fn check_write<E>(&self, slave_address: u8, reading: u32) -> (r: Result<(), UartError<E>>)
        ensures
            slot(self@, slave_address) is None ==> r == Err::<(), _>(
                UartError::<E>::UnpopulatedAddress,
            ),
            slot(self@, slave_address) matches Some(c) ==> r == if c == #[verifier::truncate] (
            reading as u8) {
                Ok::<(), UartError<E>>(())
            } else {
                Err(UartError::IncorrectIfcnt)
            },
    {
        match self.ifcnt(slave_address) {
            None => Err(UartError::UnpopulatedAddress),
            Some(c) => {
                if c == #[verifier::truncate] (reading as u8) {
                    Ok(())
                } else {
                    Err(UartError::IncorrectIfcnt)
                }
            },
        }
    }
}

} // verus!

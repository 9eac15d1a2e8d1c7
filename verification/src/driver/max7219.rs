//! Driver for a chain of MAX7219 chips on one bus.

use vstd::prelude::*;

use crate::bus::{attempted, lemma_ran_step, lemma_ran_stopped, ran, Bus, Port, Transfer};
use crate::error::Error;
use crate::frame::{
    broadcast_frame, clear_all_plan, clear_plan, init_plan, padded, single_frame, uniform_frame,
    uniform_ops,
};
use crate::registers::{DecodeMode, Register};
use crate::{BUFFER_LEN, MAX_DISPLAYS, NUM_DIGITS};

verus! {

/// The transmit buffer, together with the length of the chain it is filled for.
///
/// The buffer is filled anew for every transaction; what it held before is
/// of no account.
struct Chain {
    buffer: [u8; BUFFER_LEN],
    device_count: usize,
}

impl Chain {
    /// There is at least one chip, and never more than the buffer allows.
    #[verifier::type_invariant]
    spec fn bounded(self) -> bool {
        1 <= self.device_count <= MAX_DISPLAYS
    }

    /// The part of the buffer that goes out: two bytes per chip.
    spec fn frame(self) -> Seq<u8> {
        self.buffer@.subrange(0, 2 * self.device_count)
    }

    /// Zeroes the buffer, then places the pair for the device `device_index`.
    fn fill_single(&mut self, device_index: usize, register: Register, data: u8)
        requires
            device_index < old(self).device_count,
        ensures
            final(self).device_count == old(self).device_count,
            final(self).buffer@ == padded(
                single_frame(old(self).device_count as nat, device_index as nat, register, data),
            ),
    {
        proof {
            use_type_invariant(&*self);
        }
        self.buffer = [0;BUFFER_LEN];

        let offset = device_index * 2;  // 2 bytes (one 16-bit packet) per display
        self.buffer[offset] = register.addr();
        self.buffer[offset + 1] = data;

        assert(self.buffer@ =~= padded(
            single_frame(self.device_count as nat, device_index as nat, register, data),
        ));
    }

    /// Zeroes the buffer, then places one pair per device, the last device's first.
    fn fill_broadcast(&mut self, ops: &[(Register, u8)])
        requires
            ops@.len() == old(self).device_count,
        ensures
            final(self).device_count == old(self).device_count,
            final(self).buffer@ == padded(broadcast_frame(ops@)),
    {
        proof {
            use_type_invariant(&*self);
        }
        let count = self.device_count;
        // clear the buffer: 2 bytes per device
        self.buffer = [0;BUFFER_LEN];

        // fill in reverse order so that the bus shifts into the last device first
        let mut i: usize = 0;
        while i < count
            invariant
                i <= count,
                count == ops@.len(),
                count <= MAX_DISPLAYS,
                self.device_count == count,
                forall|k: int| 0 <= k < 2 * i ==> self.buffer@[k] == broadcast_frame(ops@)[k],
                forall|k: int| 2 * i <= k < BUFFER_LEN ==> self.buffer@[k] == 0,
            decreases count - i,
        {
            let op = ops[count - 1 - i];
            let offset = i * 2;
            self.buffer[offset] = op.0.addr();
            self.buffer[offset + 1] = op.1;
            i += 1;
        }
        assert(self.buffer@ =~= padded(broadcast_frame(ops@)));
    }
}

/// Driver for the MAX7219 LED display controller.
///
/// It owns the bus, knows how many chips are chained on it, and keeps one
/// transmit buffer that every operation fills anew.
pub struct Max7219<SPI> {
    port: Port<SPI>,
    chain: Chain,
}

impl<SPI: Bus> Max7219<SPI> {
    /// The number of chips in the chain.
    pub closed spec fn chain_len(self) -> nat {
        self.chain.device_count as nat
    }

    /// Every transaction handed to the bus since the driver was made, oldest first.
    pub open spec fn transfers(self) -> Seq<Transfer> {
        self.bus().log()
    }

    /// What the transmit buffer holds.
    pub closed spec fn buffer(self) -> Seq<u8> {
        self.chain.buffer@
    }

    /// The bus that the driver owns, with the record of what it was handed.
    pub closed spec fn bus(self) -> Port<SPI> {
        self.port
    }

    /// The operation was refused with `error` before anything reached the
    /// bus: the bus was not touched, and the driver is as it was.
    pub open spec fn refused(self, after: Self, r: Result<(), Error>, error: Error) -> bool {
        &&& after.chain_len() == self.chain_len()
        &&& after.transfers() == self.transfers()
        &&& after.buffer() == self.buffer()
        &&& after.bus() == self.bus()
        &&& r == Err::<(), Error>(error)
    }

    /// The operation handed the frames of `plan` to the bus, one transaction
    /// each, in order, and stopped at the first that the bus refused. It
    /// succeeded if the bus took them all, and failed with
    /// [`Error::SpiError`] otherwise. The buffer is left holding the last
    /// frame handed over, and zero behind it.
    pub open spec fn sent(self, after: Self, r: Result<(), Error>, plan: Seq<Seq<u8>>) -> bool {
        &&& after.chain_len() == self.chain_len()
        &&& ran(self.transfers(), after.transfers(), plan, r is Ok)
        &&& after.buffer() == padded(after.transfers().last().bytes)
        &&& r is Ok || r == Err::<(), Error>(Error::SpiError)
    }

    /// What a write to one device does: an index outside the chain is refused
    /// with [`Error::InvalidDeviceIndex`], any other index has the one frame
    /// sent that carries the pair to that device alone.
    pub open spec fn wrote_device(
        self,
        after: Self,
        r: Result<(), Error>,
        device_index: usize,
        register: Register,
        data: u8,
    ) -> bool {
        if device_index < self.chain_len() {
            self.sent(
                after,
                r,
                seq![single_frame(self.chain_len(), device_index as nat, register, data)],
            )
        } else {
            self.refused(after, r, Error::InvalidDeviceIndex)
        }
    }

    /// What a write to all devices does: the one frame is sent that carries
    /// the same pair to every device of the chain.
    pub open spec fn wrote_all(
        self,
        after: Self,
        r: Result<(), Error>,
        register: Register,
        data: u8,
    ) -> bool {
        self.sent(after, r, seq![uniform_frame(self.chain_len(), register, data)])
    }

    /// A driver for a single chip on `spi`. Nothing is sent yet.
    pub fn new(spi: SPI) -> (driver: Self)
        ensures
            driver.chain_len() == 1,
            driver.transfers() == Seq::<Transfer>::empty(),
            driver.buffer() == padded(Seq::empty()),
            driver.bus().inner() == spi,
    {
        let driver = Self {
            port: Port::new(spi),
            chain: Chain { device_count: 1, buffer: [0;BUFFER_LEN] },
        };
        assert(driver.buffer() =~= padded(Seq::empty()));
        driver
    }

    /// The number of chips in the chain: at least one, and never more than
    /// [`MAX_DISPLAYS`].
    pub fn device_count(&self) -> (count: usize)
        ensures
            count == self.chain_len(),
            1 <= count <= MAX_DISPLAYS,
    {
        proof {
            use_type_invariant(&self.chain);
        }
        self.chain.device_count
    }

    /// Sets the number of chips in the chain.
    ///
    /// A chain has between one and [`MAX_DISPLAYS`] chips. Any other count is
    /// refused with [`Error::InvalidDeviceCount`]; a count in that range is
    /// taken over. Nothing is sent either way, and the buffer is left alone.
    pub fn with_device_count(self, count: usize) -> (r: Result<Self, Error>)
        ensures
            1 <= count <= MAX_DISPLAYS ==> r is Ok && r->Ok_0.chain_len() == count
                && r->Ok_0.transfers() == self.transfers() && r->Ok_0.buffer() == self.buffer()
                && r->Ok_0.bus() == self.bus(),
            !(1 <= count <= MAX_DISPLAYS) ==> r is Err && r->Err_0 == Error::InvalidDeviceCount,
    {
        if count < 1 || count > MAX_DISPLAYS {
            return Err(Error::InvalidDeviceCount);
        }
        let mut driver = self;
        driver.chain.device_count = count;
        Ok(driver)
    }

    /// Hands the frame in the buffer to the bus as one transaction.
    fn transmit(&mut self) -> (r: Result<(), Error>)
        requires
            old(self).chain.buffer@ == padded(old(self).chain.frame()),
        ensures
            old(self).sent(*final(self), r, seq![old(self).chain.frame()]),
    {
        proof {
            use_type_invariant(&self.chain);
        }
        let ghost frame = self.chain.frame();
        let len = self.chain.device_count * 2;
        let outcome = self.port.write(&self.chain.buffer[0..len]);
        let r = match outcome {
            Ok(()) => Ok(()),
            Err(fault) => Err(Error::from(fault)),
        };
        assert(final(self).transfers() =~= old(self).transfers() + attempted(
            seq![frame],
            1,
            r is Ok,
        ));
        r
    }

    /// Writes `data` to `register` of the device with index `device_index`.
    ///
    /// An index outside the chain is refused with
    /// [`Error::InvalidDeviceIndex`] and nothing is sent. Otherwise one frame
    /// goes out that holds the pair at offset `2 * device_index` and a no-op
    /// for every other device.
    pub fn write_device_register(&mut self, device_index: usize, register: Register, data: u8) -> (r:
        Result<(), Error>)
        ensures
            device_index >= old(self).chain_len() ==> old(self).refused(
                *final(self),
                r,
                Error::InvalidDeviceIndex,
            ),
            device_index < old(self).chain_len() ==> old(self).sent(
                *final(self),
                r,
                seq![
                    single_frame(old(self).chain_len(), device_index as nat, register, data),
                ],
            ),
    {
        proof {
            use_type_invariant(&self.chain);
        }
        if device_index >= self.chain.device_count {
            return Err(Error::InvalidDeviceIndex);
        }
        self.chain.fill_single(device_index, register, data);
        assert(self.chain.frame() =~= single_frame(
            self.chain_len(),
            device_index as nat,
            register,
            data,
        ));
        self.transmit()
    }

    /// Writes one pair to each device in a single frame: `ops[i]` goes to
    /// device `i`.
    ///
    /// The number of pairs must be the number of chips in the chain; any other
    /// number is refused with [`Error::InvalidDeviceCount`] and nothing is
    /// sent. The pairs go out in reverse, so that the last device's pair is
    /// shifted through the chain first.
    pub fn write_all_registers(&mut self, ops: &[(Register, u8)]) -> (r: Result<(), Error>)
        ensures
            ops@.len() != old(self).chain_len() ==> old(self).refused(
                *final(self),
                r,
                Error::InvalidDeviceCount,
            ),
            ops@.len() == old(self).chain_len() ==> old(self).sent(
                *final(self),
                r,
                seq![broadcast_frame(ops@)],
            ),
    {
        proof {
            use_type_invariant(&self.chain);
        }
        if ops.len() != self.chain.device_count {
            return Err(Error::InvalidDeviceCount);
        }
        self.chain.fill_broadcast(ops);
        assert(self.chain.frame() =~= broadcast_frame(ops@));
        self.transmit()
    }

    /// Writes the same pair to every device of the chain in one frame.
    fn write_all(&mut self, register: Register, data: u8) -> (r: Result<(), Error>)
        ensures
            old(self).wrote_all(*final(self), r, register, data),
    {
        proof {
            use_type_invariant(&self.chain);
        }
        let ops = [(register, data);MAX_DISPLAYS];
        let count = self.chain.device_count;
        assert(ops@.subrange(0, count as int) =~= uniform_ops(count as nat, register, data));
        self.write_all_registers(&ops[0..count])
    }

    /// Sets up every device of the chain: power on, display test off, scan all
    /// eight digits, no decoding, all digits blank, in that order.
    ///
    /// Twelve frames go out, one per step and eight for the digits. The first
    /// frame that the bus refuses ends the sequence with [`Error::SpiError`];
    /// what was sent before it stays in force.
    pub fn init(&mut self) -> (r: Result<(), Error>)
        ensures
            old(self).sent(*final(self), r, init_plan(old(self).chain_len())),
    {
        let ghost count = self.chain_len();
        let ghost start = self.transfers();
        let ghost power = seq![uniform_frame(count, Register::Shutdown, 0x01)];
        let ghost test = seq![uniform_frame(count, Register::DisplayTest, 0x00)];
        let ghost scan = seq![uniform_frame(count, Register::ScanLimit, 0x07)];
        let ghost decode = seq![uniform_frame(count, Register::DecodeMode, 0x00)];
        let ghost clear = clear_all_plan(count);
        let ghost whole = init_plan(count);
        assert(whole =~= power + (test + scan + decode + clear));
        assert(whole =~= power + test + (scan + decode + clear));
        assert(whole =~= power + test + scan + (decode + clear));
        assert(whole =~= power + test + scan + decode + clear);

        if let Err(e) = self.power_on() {
            proof {
                lemma_ran_stopped(start, self.transfers(), power, test + scan + decode + clear);
            }
            return Err(e);
        }
        let ghost powered = self.transfers();

        if let Err(e) = self.test_all(false) {
            proof {
                lemma_ran_step(
                    start,
                    powered,
                    self.transfers(),
                    power,
                    test,
                    scan + decode + clear,
                    false,
                );
            }
            return Err(e);
        }
        let ghost tested = self.transfers();
        proof {
            lemma_ran_step(start, powered, tested, power, test, scan + decode + clear, true);
        }

        if let Err(e) = self.set_scan_limit_all(NUM_DIGITS) {
            proof {
                lemma_ran_step(
                    start,
                    tested,
                    self.transfers(),
                    power + test,
                    scan,
                    decode + clear,
                    false,
                );
            }
            return Err(e);
        }
        let ghost scanned = self.transfers();
        proof {
            lemma_ran_step(start, tested, scanned, power + test, scan, decode + clear, true);
        }

        if let Err(e) = self.set_decode_mode_all(DecodeMode::NoDecode) {
            proof {
                lemma_ran_step(
                    start,
                    scanned,
                    self.transfers(),
                    power + test + scan,
                    decode,
                    clear,
                    false,
                );
            }
            return Err(e);
        }
        let ghost decoded = self.transfers();
        proof {
            lemma_ran_step(start, scanned, decoded, power + test + scan, decode, clear, true);
        }

        let cleared = self.clear_all();
        proof {
            lemma_ran_step(
                start,
                decoded,
                self.transfers(),
                power + test + scan + decode,
                clear,
                Seq::empty(),
                cleared is Ok,
            );
            assert(whole =~= power + test + scan + decode + clear + Seq::<Seq<u8>>::empty());
        }
        cleared
    }

    /// Takes every device of the chain out of shutdown.
    pub fn power_on(&mut self) -> (r: Result<(), Error>)
        ensures
            old(self).wrote_all(*final(self), r, Register::Shutdown, 0x01),
    {
        self.write_all(Register::Shutdown, 0x01)
    }

    /// Puts every device of the chain into shutdown.
    pub fn power_off(&mut self) -> (r: Result<(), Error>)
        ensures
            old(self).wrote_all(*final(self), r, Register::Shutdown, 0x00),
    {
        self.write_all(Register::Shutdown, 0x00)
    }

    /// Takes one device out of shutdown.
    pub fn power_on_device(&mut self, device_index: usize) -> (r: Result<(), Error>)
        ensures
            old(self).wrote_device(*final(self), r, device_index, Register::Shutdown, 0x01),
    {
        self.write_device_register(device_index, Register::Shutdown, 0x01)
    }

    /// Puts one device into shutdown.
    pub fn power_off_device(&mut self, device_index: usize) -> (r: Result<(), Error>)
        ensures
            old(self).wrote_device(*final(self), r, device_index, Register::Shutdown, 0x00),
    {
        self.write_device_register(device_index, Register::Shutdown, 0x00)
    }

    /// Switches the display test of one device on or off.
    pub fn test_device(&mut self, device_index: usize, enable: bool) -> (r: Result<(), Error>)
        ensures
            old(self).wrote_device(
                *final(self),
                r,
                device_index,
                Register::DisplayTest,
                if enable {
                    0x01u8
                } else {
                    0x00u8
                },
            ),
    {
        let data: u8 = if enable {
            0x01
        } else {
            0x00
        };
        self.write_device_register(device_index, Register::DisplayTest, data)
    }

    /// Switches the display test of every device on or off.
    pub fn test_all(&mut self, enable: bool) -> (r: Result<(), Error>)
        ensures
            old(self).wrote_all(
                *final(self),
                r,
                Register::DisplayTest,
                if enable {
                    0x01u8
                } else {
                    0x00u8
                },
            ),
    {
        let data: u8 = if enable {
            0x01
        } else {
            0x00
        };
        self.write_all(Register::DisplayTest, data)
    }

    /// Blanks one device: writes zero to each of its digit registers, digit 0
    /// first, one frame per digit.
    ///
    /// An index outside the chain is refused with
    /// [`Error::InvalidDeviceIndex`] before anything is sent. The first frame
    /// that the bus refuses ends the sequence with [`Error::SpiError`].
    pub fn clear_display(&mut self, device_index: usize) -> (r: Result<(), Error>)
        ensures
            device_index >= old(self).chain_len() ==> old(self).refused(
                *final(self),
                r,
                Error::InvalidDeviceIndex,
            ),
            device_index < old(self).chain_len() ==> old(self).sent(
                *final(self),
                r,
                clear_plan(old(self).chain_len(), device_index as nat),
            ),
    {
        if device_index >= self.chain.device_count {
            return Err(Error::InvalidDeviceIndex);
        }
        let ghost plan = clear_plan(self.chain_len(), device_index as nat);
        let digits = Register::digits();
        let mut d: usize = 0;
        while d < 8
            invariant
                d <= 8,
                digits@ == Register::digit_seq(),
                self.chain_len() == old(self).chain_len(),
                device_index < self.chain_len(),
                plan == clear_plan(old(self).chain_len(), device_index as nat),
                self.transfers() == old(self).transfers() + attempted(plan, d as nat, true),
                d > 0 ==> self.buffer() == padded(self.transfers().last().bytes),
            decreases 8 - d,
        {
            let ghost before = self.transfers();
            let step = self.write_device_register(device_index, digits[d], 0x00);
            assert(self.transfers() =~= old(self).transfers() + attempted(
                plan,
                (d + 1) as nat,
                step is Ok,
            ));
            if let Err(e) = step {
                return Err(e);
            }
            d += 1;
        }
        Ok(())
    }

    /// Blanks every device: writes zero to each digit register of all devices,
    /// digit 0 first, one frame per digit.
    ///
    /// The first frame that the bus refuses ends the sequence with
    /// [`Error::SpiError`].
    pub fn clear_all(&mut self) -> (r: Result<(), Error>)
        ensures
            old(self).sent(*final(self), r, clear_all_plan(old(self).chain_len())),
    {
        let ghost plan = clear_all_plan(self.chain_len());
        let digits = Register::digits();
        let mut d: usize = 0;
        while d < 8
            invariant
                d <= 8,
                digits@ == Register::digit_seq(),
                self.chain_len() == old(self).chain_len(),
                plan == clear_all_plan(old(self).chain_len()),
                self.transfers() == old(self).transfers() + attempted(plan, d as nat, true),
                d > 0 ==> self.buffer() == padded(self.transfers().last().bytes),
            decreases 8 - d,
        {
            let step = self.write_all(digits[d], 0x00);
            assert(self.transfers() =~= old(self).transfers() + attempted(
                plan,
                (d + 1) as nat,
                step is Ok,
            ));
            if let Err(e) = step {
                return Err(e);
            }
            d += 1;
        }
        Ok(())
    }

    /// Sets the brightness of one device.
    ///
    /// An intensity above `0x0F` is refused with [`Error::InvalidIntensity`],
    /// whatever the index; nothing is sent then.
    pub fn set_intensity(&mut self, device_index: usize, intensity: u8) -> (r: Result<(), Error>)
        ensures
            intensity > 0x0F ==> old(self).refused(*final(self), r, Error::InvalidIntensity),
            intensity <= 0x0F ==> old(self).wrote_device(
                *final(self),
                r,
                device_index,
                Register::Intensity,
                intensity,
            ),
    {
        if intensity > 0x0F {
            return Err(Error::InvalidIntensity);
        }
        self.write_device_register(device_index, Register::Intensity, intensity)
    }

    /// Sets the brightness of every device.
    ///
    /// The byte goes out as given: the chip reads the low four bits of it and
    /// ignores the rest, so no value is refused here.
    pub fn set_intensity_all(&mut self, intensity: u8) -> (r: Result<(), Error>)
        ensures
            old(self).wrote_all(*final(self), r, Register::Intensity, intensity),
    {
        self.write_all(Register::Intensity, intensity)
    }

    /// Sets how many digits one device drives, from 1 to 8.
    ///
    /// Any other limit is refused with [`Error::InvalidScanLimit`], whatever
    /// the index; nothing is sent then. The chip counts from zero, so the
    /// byte that goes out is `limit - 1`.
    pub fn set_device_scan_limit(&mut self, device_index: usize, limit: u8) -> (r: Result<
        (),
        Error,
    >)
        ensures
            !(1 <= limit <= 8) ==> old(self).refused(*final(self), r, Error::InvalidScanLimit),
            1 <= limit <= 8 ==> old(self).wrote_device(
                *final(self),
                r,
                device_index,
                Register::ScanLimit,
                (limit - 1) as u8,
            ),
    {
        if limit < 1 || limit > 8 {
            return Err(Error::InvalidScanLimit);
        }
        self.write_device_register(device_index, Register::ScanLimit, limit - 1)
    }

    /// Sets how many digits every device drives, from 1 to 8.
    ///
    /// Any other limit is refused with [`Error::InvalidScanLimit`] and nothing
    /// is sent. The byte that goes out is `limit - 1`.
    pub fn set_scan_limit_all(&mut self, limit: u8) -> (r: Result<(), Error>)
        ensures
            !(1 <= limit <= 8) ==> old(self).refused(*final(self), r, Error::InvalidScanLimit),
            1 <= limit <= 8 ==> old(self).wrote_all(
                *final(self),
                r,
                Register::ScanLimit,
                (limit - 1) as u8,
            ),
    {
        if limit < 1 || limit > 8 {
            return Err(Error::InvalidScanLimit);
        }
        let val = limit - 1;
        self.write_all(Register::ScanLimit, val)
    }

    /// Sets which digits of one device the chip decodes by itself.
    pub fn set_device_decode_mode(&mut self, device_index: usize, mode: DecodeMode) -> (r: Result<
        (),
        Error,
    >)
        ensures
            old(self).wrote_device(
                *final(self),
                r,
                device_index,
                Register::DecodeMode,
                mode.value_spec(),
            ),
    {
        self.write_device_register(device_index, Register::DecodeMode, mode.value())
    }

    /// Sets which digits of every device the chip decodes by itself.
    pub fn set_decode_mode_all(&mut self, mode: DecodeMode) -> (r: Result<(), Error>)
        ensures
            old(self).wrote_all(*final(self), r, Register::DecodeMode, mode.value_spec()),
    {
        let byte = mode.value();
        self.write_all(Register::DecodeMode, byte)
    }

    /// A write to a device outside the chain fails with
    /// [`Error::InvalidDeviceIndex`] and does not reach the bus, whatever the
    /// register and the data.
    pub proof fn lemma_outside_index_refused(
        self,
        after: Self,
        r: Result<(), Error>,
        device_index: usize,
        register: Register,
        data: u8,
    )
        requires
            self.wrote_device(after, r, device_index, register, data),
            device_index >= self.chain_len(),
        ensures
            r == Err::<(), Error>(Error::InvalidDeviceIndex),
            after.transfers() == self.transfers(),
            after.buffer() == self.buffer(),
            after.bus() == self.bus(),
            after.chain_len() == self.chain_len(),
    {
    }

    /// A write to a device of the chain is exactly one transaction of two
    /// bytes per chip: the address and the data at `2 * device_index`, zero
    /// everywhere else. It fails only if the bus refused that transaction.
    pub proof fn lemma_inside_index_sent(
        self,
        after: Self,
        r: Result<(), Error>,
        device_index: usize,
        register: Register,
        data: u8,
    )
        requires
            self.wrote_device(after, r, device_index, register, data),
            device_index < self.chain_len(),
        ensures
            after.transfers().len() == self.transfers().len() + 1,
            after.transfers().drop_last() == self.transfers(),
            after.transfers().last().accepted == (r is Ok),
            r is Err ==> r == Err::<(), Error>(Error::SpiError),
            after.transfers().last().bytes.len() == 2 * self.chain_len(),
            forall|k: int|
                0 <= k < 2 * self.chain_len() ==> after.transfers().last().bytes[k] == if k == 2
                    * device_index {
                    register.addr_spec()
                } else if k == 2 * device_index + 1 {
                    data
                } else {
                    0u8
                },
    {
        assert(after.transfers().drop_last() =~= self.transfers());
    }

    /// A write to all devices is exactly one transaction of two bytes per
    /// chip, each pair the address and the data. It fails only if the bus
    /// refused that transaction.
    pub proof fn lemma_all_sent(
        self,
        after: Self,
        r: Result<(), Error>,
        register: Register,
        data: u8,
    )
        requires
            self.wrote_all(after, r, register, data),
        ensures
            after.transfers().len() == self.transfers().len() + 1,
            after.transfers().drop_last() == self.transfers(),
            after.transfers().last().accepted == (r is Ok),
            r is Err ==> r == Err::<(), Error>(Error::SpiError),
            after.transfers().last().bytes.len() == 2 * self.chain_len(),
            forall|k: int|
                0 <= k < 2 * self.chain_len() ==> after.transfers().last().bytes[k] == if k % 2
                    == 0 {
                    register.addr_spec()
                } else {
                    data
                },
    {
        assert(after.transfers().drop_last() =~= self.transfers());
    }
}

} // verus!

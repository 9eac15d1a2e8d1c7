//! The byte layout of one bus transaction, and the frames of each operation.
//!
//! A frame holds two bytes for every chip of the chain: a register address and
//! the data for it. The bytes go out in ascending order.

use vstd::prelude::*;

use crate::registers::Register;
use crate::BUFFER_LEN;

verus! {

/// The frame that writes `data` to `register` of the device with index `index`
/// in a chain of `count` devices: the pair stands at offset `2 * index`, every
/// other byte is zero, which the other chips read as a no-op.
pub open spec fn single_frame(count: nat, index: nat, register: Register, data: u8) -> Seq<u8> {
    Seq::new(
        2 * count,
        |k: int|
            if k == 2 * index {
                register.addr_spec()
            } else if k == 2 * index + 1 {
                data
            } else {
                0u8
            },
    )
}

/// The frame that gives each device its own pair. `ops[i]` is meant for device
/// `i`; the pairs stand in the frame in reverse, the last device's pair first.
pub open spec fn broadcast_frame(ops: Seq<(Register, u8)>) -> Seq<u8> {
    Seq::new(
        2 * ops.len(),
        |k: int|
            if k % 2 == 0 {
                ops[ops.len() - 1 - k / 2].0.addr_spec()
            } else {
                ops[ops.len() - 1 - k / 2].1
            },
    )
}

/// The place in the chain, counted from the controller and starting at zero,
/// of the chip that latches the pair at `offset` of a frame for `count` chips.
/// The bytes are shifted through the chain, so what goes out first travels
/// furthest.
pub open spec fn chain_position(count: nat, offset: nat) -> int {
    count - 1 - offset / 2
}

/// What the transmit buffer holds once `frame` has been laid out in it: the
/// frame at the front, zero behind it.
pub open spec fn padded(frame: Seq<u8>) -> Seq<u8> {
    Seq::new(
        BUFFER_LEN as nat,
        |k: int|
            if k < frame.len() {
                frame[k]
            } else {
                0u8
            },
    )
}

/// `count` times the same pair.
pub open spec fn uniform_ops(count: nat, register: Register, data: u8) -> Seq<(Register, u8)> {
    Seq::new(count, |i: int| (register, data))
}

/// The frame that writes `data` to `register` of every device of the chain.
pub open spec fn uniform_frame(count: nat, register: Register, data: u8) -> Seq<u8> {
    broadcast_frame(uniform_ops(count, register, data))
}

/// The eight frames that blank one device, digit 0 first.
pub open spec fn clear_plan(count: nat, index: nat) -> Seq<Seq<u8>> {
    Seq::new(8, |d: int| single_frame(count, index, Register::digit(d), 0))
}

/// The eight frames that blank every device, digit 0 first.
pub open spec fn clear_all_plan(count: nat) -> Seq<Seq<u8>> {
    Seq::new(8, |d: int| uniform_frame(count, Register::digit(d), 0))
}

/// The frames that bring a chain into a known state: leave shutdown, end the
/// display test, scan all eight digits, decode nothing, then blank every digit.
pub open spec fn init_plan(count: nat) -> Seq<Seq<u8>> {
    seq![
        uniform_frame(count, Register::Shutdown, 0x01),
        uniform_frame(count, Register::DisplayTest, 0x00),
        uniform_frame(count, Register::ScanLimit, 0x07),
        uniform_frame(count, Register::DecodeMode, 0x00),
    ] + clear_all_plan(count)
}

/// A frame for one device is `2 * count` bytes long, holds the address and the
/// data at `2 * index` and `2 * index + 1`, and zero everywhere else.
pub proof fn lemma_single_frame_bytes(count: nat, index: nat, register: Register, data: u8)
    requires
        index < count,
    ensures
        single_frame(count, index, register, data).len() == 2 * count,
        single_frame(count, index, register, data)[2 * (index as int)] == register.addr_spec(),
        single_frame(count, index, register, data)[2 * (index as int) + 1] == data,
        forall|k: int|
            0 <= k < 2 * count && k != 2 * index && k != 2 * index + 1 ==> single_frame(
                count,
                index,
                register,
                data,
            )[k] == 0,
{
}

/// In a broadcast frame the pair of device `i` stands at offset
/// `2 * (n - 1 - i)`, where `n` is the number of pairs.
pub proof fn lemma_broadcast_frame_bytes(ops: Seq<(Register, u8)>, i: int)
    requires
        0 <= i < ops.len(),
    ensures
        broadcast_frame(ops).len() == 2 * ops.len(),
        broadcast_frame(ops)[2 * (ops.len() - 1 - i)] == ops[i].0.addr_spec(),
        broadcast_frame(ops)[2 * (ops.len() - 1 - i) + 1] == ops[i].1,
{
}

/// Where the pairs end up. In a broadcast, the pair of device `i` is latched
/// by the chip at place `i` of the chain. In a write to one device, the pair
/// for index `i` is latched by the chip at place `n - 1 - i`.
pub proof fn lemma_chain_positions(ops: Seq<(Register, u8)>, i: int)
    requires
        0 <= i < ops.len(),
    ensures
        chain_position(ops.len(), (2 * (ops.len() - 1 - i)) as nat) == i,
        broadcast_frame(ops)[2 * (ops.len() - 1 - i)] == ops[i].0.addr_spec(),
        broadcast_frame(ops)[2 * (ops.len() - 1 - i) + 1] == ops[i].1,
        chain_position(ops.len(), (2 * i) as nat) == ops.len() - 1 - i,
        single_frame(ops.len(), i as nat, ops[i].0, ops[i].1)[2 * i] == ops[i].0.addr_spec(),
        single_frame(ops.len(), i as nat, ops[i].0, ops[i].1)[2 * i + 1] == ops[i].1,
{
}

/// A frame for one device is the broadcast frame in which the device at the
/// mirrored position gets the pair and every other device a no-op: index `i`
/// of a single write and index `n - 1 - i` of a broadcast reach the same chip.
pub proof fn lemma_single_is_mirrored_broadcast(
    count: nat,
    index: nat,
    register: Register,
    data: u8,
)
    requires
        index < count,
    ensures
        single_frame(count, index, register, data) == broadcast_frame(
            Seq::new(
                count,
                |j: int|
                    if j == count - 1 - index {
                        (register, data)
                    } else {
                        (Register::NoOp, 0u8)
                    },
            ),
        ),
{
    let ops = Seq::new(
        count,
        |j: int|
            if j == count - 1 - index {
                (register, data)
            } else {
                (Register::NoOp, 0u8)
            },
    );
    assert(single_frame(count, index, register, data) =~= broadcast_frame(ops));
}

/// Blanking one device takes eight frames; frame `d` writes zero to digit `d`
/// of that device and a no-op to the others.
pub proof fn lemma_clear_plan_frames(count: nat, index: nat)
    ensures
        clear_plan(count, index).len() == 8,
        forall|d: int|
            0 <= d < 8 ==> #[trigger] clear_plan(count, index)[d] == single_frame(
                count,
                index,
                Register::digit(d),
                0,
            ),
{
}

/// Initialisation takes twelve frames: four settings, then the eight frames
/// that blank every device.
pub proof fn lemma_init_plan_frames(count: nat)
    ensures
        init_plan(count).len() == 12,
        init_plan(count)[0] == uniform_frame(count, Register::Shutdown, 0x01),
        init_plan(count)[1] == uniform_frame(count, Register::DisplayTest, 0x00),
        init_plan(count)[2] == uniform_frame(count, Register::ScanLimit, 0x07),
        init_plan(count)[3] == uniform_frame(count, Register::DecodeMode, 0x00),
        forall|d: int|
            0 <= d < 8 ==> #[trigger] init_plan(count)[4 + d] == uniform_frame(
                count,
                Register::digit(d),
                0,
            ),
{
}

/// In a uniform frame every even byte is the address and every odd byte the data.
pub proof fn lemma_uniform_frame_bytes(count: nat, register: Register, data: u8)
    ensures
        uniform_frame(count, register, data).len() == 2 * count,
        forall|k: int|
            0 <= k < 2 * count ==> uniform_frame(count, register, data)[k] == if k % 2 == 0 {
                register.addr_spec()
            } else {
                data
            },
{
}

} // verus!

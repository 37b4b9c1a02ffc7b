//! Properties that relate several parts of the driver.
//!
//! The composer and its inverse agree on every flag; the power mode survives
//! a trip through its register; and an operation leaves alone every register
//! that it does not name, whether it succeeds or stops at a failure.
use vstd::prelude::*;
use crate::bus::{ran_until_failure, read_ran, write_ran, Exchange, Request};
use crate::config::{bit, Calibration, Config};
use crate::frame::{lemma_command_bytes, write_command_spec};
use crate::init::initialised;
use crate::mode::{lemma_common_feed_bits, Absolute, Mode, Relative};
use crate::register::Register;
use crate::state::PowerMode;
use crate::touchpad::{
    calibration_started, feed_switched, flags_cleared, power_mode_read, sample_fetched,
};

verus! {

/// In relative mode each bit of the second feed register is the flag it
/// stands for, or its opposite where the register disables a feature: bit 7
/// is swap, bit 4 is no glide-extend, bit 3 is no scroll, bit 2 is no
/// secondary tap, bit 1 is no taps, bit 0 is intellimouse. Bits 5 and 6 are
/// clear.
pub proof fn law_relative_feed_config2_bits(flags: Relative)
    ensures
        (flags.feed_config2_spec() & 0x80 != 0) == flags.swap_x_y,
        (flags.feed_config2_spec() & 0x10 != 0) == !flags.glide_extend,
        (flags.feed_config2_spec() & 0x08 != 0) == !flags.scroll,
        (flags.feed_config2_spec() & 0x04 != 0) == !flags.secondary_tap,
        (flags.feed_config2_spec() & 0x02 != 0) == !flags.taps,
        (flags.feed_config2_spec() & 0x01 != 0) == flags.intellimouse,
        flags.feed_config2_spec() & 0x60 == 0,
        flags.feed_config2_spec() == 128 * bit(flags.swap_x_y) + 16 * bit(!flags.glide_extend) + 8
            * bit(!flags.scroll) + 4 * bit(!flags.secondary_tap) + 2 * bit(!flags.taps) + bit(
            flags.intellimouse,
        ),
{
    let sw = bit(flags.swap_x_y);
    let ng = bit(!flags.glide_extend);
    let ns = bit(!flags.scroll);
    let nt = bit(!flags.secondary_tap);
    let na = bit(!flags.taps);
    let im = bit(flags.intellimouse);
    let byte = flags.feed_config2_spec();
    assert((byte & 0x80 != 0) == (sw == 1) && (byte & 0x10 != 0) == (ng == 1) && (byte & 0x08 != 0)
        == (ns == 1) && (byte & 0x04 != 0) == (nt == 1) && (byte & 0x02 != 0) == (na == 1) && (byte
        & 0x01 != 0) == (im == 1) && byte & 0x60 == 0 && byte == 128 * sw + 16 * ng + 8 * ns + 4
        * nt + 2 * na + im) by (bit_vector)
        requires
            sw <= 1 && ng <= 1 && ns <= 1 && nt <= 1 && na <= 1 && im <= 1,
            byte == sw << 7u8 | ng << 4u8 | ns << 3u8 | nt << 2u8 | na << 1u8 | im,
    ;
}

/// In relative mode bits 2, 3 and 4 of the first feed register are the
/// opposites of the filter, X and Y flags; bit 0, which enables the feed, is
/// set, and bit 1, which selects absolute reporting, is clear.
pub proof fn law_relative_feed_config1_bits(flags: Relative)
    ensures
        (flags.feed_config1_spec() & 0x04 != 0) == !flags.filter,
        (flags.feed_config1_spec() & 0x08 != 0) == !flags.x,
        (flags.feed_config1_spec() & 0x10 != 0) == !flags.y,
        flags.feed_config1_spec() & 0x03 == 0x01,
        flags.feed_config1_spec() & 0xE0 == 0,
        flags.feed_config1_spec() == 1 + 4 * bit(!flags.filter) + 8 * bit(!flags.x) + 16 * bit(
            !flags.y,
        ),
{
    lemma_common_feed_bits(flags.x, flags.y, flags.filter);
    let r = flags.feed_config1_spec();
    assert(r & 0x03 == 0x01 && r & 0xE0 == 0) by (bit_vector)
        requires
            r & 0x01 == 0x01 && r & 0xE2 == 0,
    ;
}

/// In absolute mode bits 2, 3 and 4 of the first feed register are the
/// opposites of the filter, X and Y flags; bit 6 is the invert-Y flag and
/// bit 7 the invert-X flag; bits 0 and 1, which enable the feed and select
/// absolute reporting, are set, and bit 5 is clear.
pub proof fn law_absolute_feed_config1_bits(flags: Absolute)
    ensures
        (flags.feed_config1_spec() & 0x04 != 0) == !flags.filter,
        (flags.feed_config1_spec() & 0x08 != 0) == !flags.x,
        (flags.feed_config1_spec() & 0x10 != 0) == !flags.y,
        (flags.feed_config1_spec() & 0x40 != 0) == flags.invert_y,
        (flags.feed_config1_spec() & 0x80 != 0) == flags.invert_x,
        flags.feed_config1_spec() & 0x03 == 0x03,
        flags.feed_config1_spec() & 0x20 == 0,
        flags.feed_config1_spec() == 3 + 4 * bit(!flags.filter) + 8 * bit(!flags.x) + 16 * bit(
            !flags.y,
        ) + 64 * bit(flags.invert_y) + 128 * bit(flags.invert_x),
{
    let ny = bit(!flags.y);
    let nx = bit(!flags.x);
    let nf = bit(!flags.filter);
    let iy = bit(flags.invert_y);
    let ix = bit(flags.invert_x);
    let byte = flags.feed_config1_spec();
    assert((byte & 0x04 != 0) == (nf == 1) && (byte & 0x08 != 0) == (nx == 1) && (byte & 0x10 != 0)
        == (ny == 1) && (byte & 0x40 != 0) == (iy == 1) && (byte & 0x80 != 0) == (ix == 1) && byte
        & 0x03 == 0x03 && byte & 0x20 == 0 && byte == 3 + 4 * nf + 8 * nx + 16 * ny + 64 * iy + 128
        * ix) by (bit_vector)
        requires
            ny <= 1 && nx <= 1 && nf <= 1 && iy <= 1 && ix <= 1,
            byte == 1u8 | ny << 4u8 | nx << 3u8 | nf << 2u8 | iy << 6u8 | ix << 7u8 | 0x02u8,
    ;
}

/// Composing the feed registers from relative flags and reading the flags
/// back from the registers gives every flag as it was.
pub proof fn law_relative_flags_round_trip(flags: Relative)
    ensures
        Relative::from_registers_spec(flags.feed_config1_spec(), flags.feed_config2_spec())
            == flags,
{
    lemma_common_feed_bits(flags.x, flags.y, flags.filter);
    law_relative_feed_config2_bits(flags);
}

/// Composing the first feed register from absolute flags and reading the
/// flags back from the register gives every flag as it was.
pub proof fn law_absolute_flags_round_trip(flags: Absolute)
    ensures
        Absolute::from_register_spec(flags.feed_config1_spec()) == flags,
{
    law_absolute_feed_config1_bits(flags);
}

/// Two sets of relative flags that compose to the same feed registers are
/// the same flags.
pub proof fn law_relative_composer_is_injective(a: Relative, b: Relative)
    requires
        a.feed_config1_spec() == b.feed_config1_spec(),
        a.feed_config2_spec() == b.feed_config2_spec(),
    ensures
        a == b,
{
    law_relative_flags_round_trip(a);
    law_relative_flags_round_trip(b);
}

/// Composing the calibration byte from options and reading the options back
/// from the byte gives every option as it was; the start bit is always set.
pub proof fn law_calibration_round_trip(options: Calibration)
    ensures
        Calibration::from_config_byte_spec(options.config_byte_spec()) == options,
        options.config_byte_spec() & 0x01 == 0x01,
        options.config_byte_spec() == 1 + 2 * bit(options.background_comp) + 4 * bit(
            options.nerd_comp,
        ) + 8 * bit(options.track_error_comp) + 16 * bit(options.tap_comp) + 32 * bit(
            options.palm_error_comp,
        ) + 64 * bit(!options.calibration_matrix) + 128 * bit(
            options.force_precalibration_noise_check,
        ),
{
    let b1 = bit(options.background_comp);
    let b2 = bit(options.nerd_comp);
    let b3 = bit(options.track_error_comp);
    let b4 = bit(options.tap_comp);
    let b5 = bit(options.palm_error_comp);
    let b6 = bit(!options.calibration_matrix);
    let b7 = bit(options.force_precalibration_noise_check);
    let byte = options.config_byte_spec();
    assert(byte & 0x01 == 0x01 && (byte & 0x02 != 0) == (b1 == 1) && (byte & 0x04 != 0) == (b2 == 1)
        && (byte & 0x08 != 0) == (b3 == 1) && (byte & 0x10 != 0) == (b4 == 1) && (byte & 0x20
        != 0) == (b5 == 1) && (byte & 0x40 != 0) == (b6 == 1) && (byte & 0x80 != 0) == (b7 == 1)
        && byte == 1 + 2 * b1 + 4 * b2 + 8 * b3 + 16 * b4 + 32 * b5 + 64 * b6 + 128 * b7)
        by (bit_vector)
        requires
            b1 <= 1 && b2 <= 1 && b3 <= 1 && b4 <= 1 && b5 <= 1 && b6 <= 1 && b7 <= 1,
            byte == 1u8 | b1 << 1u8 | b2 << 2u8 | b3 << 3u8 | b4 << 4u8 | b5 << 5u8 | b6 << 6u8
                | b7 << 7u8,
    ;
}

/// The power mode that is decoded from the byte written for a mode is that
/// mode.
pub proof fn law_power_mode_round_trip(mode: PowerMode)
    ensures
        PowerMode::from_bits_spec(mode.bits_spec()) == mode,
{
    assert(0u8 & 0x02 == 0 && 0u8 & 0x04 == 0 && 0x04u8 & 0x02 == 0 && 0x04u8 & 0x04 != 0 && 0x02u8
        & 0x02 != 0) by (bit_vector);
}

/// A system register with the shutdown bit set reads as shutdown, whether or
/// not the sleep bit is set too; otherwise the sleep bit alone decides.
pub proof fn law_shutdown_wins(byte: u8)
    ensures
        byte & 0x02 != 0 ==> PowerMode::from_bits_spec(byte) == PowerMode::Shutdown,
        byte & 0x02 == 0 && byte & 0x04 != 0 ==> PowerMode::from_bits_spec(byte)
            == PowerMode::Sleep,
        byte & 0x06 == 0 ==> PowerMode::from_bits_spec(byte) == PowerMode::Active,
        PowerMode::from_bits_spec(0x06) == PowerMode::Shutdown,
{
    assert(byte & 0x06 == 0 ==> byte & 0x02 == 0 && byte & 0x04 == 0) by (bit_vector);
    assert(0x06u8 & 0x02 != 0) by (bit_vector);
}

/// The power mode that was set is the power mode that is read, as long as
/// the sensor answers the read with the byte that was written.
pub proof fn law_power_mode_reads_back<E>(
    mode: PowerMode,
    set: Seq<Exchange<E>>,
    get: Seq<Exchange<E>>,
    result: Result<PowerMode, E>,
)
    requires
        write_ran(set, Register::SysConfig1.addr(), mode.bits_spec(), Ok::<(), E>(())),
        power_mode_read(get, result),
        result is Ok,
        get[0].value() == set[0].request->Write_frame[1],
    ensures
        result == Ok::<PowerMode, E>(mode),
{
    law_power_mode_round_trip(mode);
}

/// The transaction writes to the register at `addr`.
pub open spec fn writes_to<E>(exchange: Exchange<E>, addr: u8) -> bool {
    match exchange.request {
        Request::Write { frame } => frame.len() == 2 && frame[0] == write_command_spec(addr),
        Request::WriteThenDelay { frame, nanos } => frame.len() == 2 && frame[0]
            == write_command_spec(addr),
        Request::Transfer { frame } => false,
        Request::TransferBlock { header, body } => false,
    }
}

/// None of the transactions writes to the register at `addr`.
pub open spec fn untouched<E>(done: Seq<Exchange<E>>, addr: u8) -> bool {
    forall|i: int| 0 <= i < done.len() ==> !writes_to(#[trigger] done[i], addr)
}

/// The write commands of two registers differ.
pub proof fn lemma_write_commands_differ(a: Register, b: Register)
    requires
        a != b,
    ensures
        write_command_spec(a.addr()) != write_command_spec(b.addr()),
{
    lemma_command_bytes(a.addr());
    lemma_command_bytes(b.addr());
}

/// An operation that stopped at a failure returns the error of the
/// transaction that failed: that transaction is the last one made, every one
/// before it succeeded, and nothing was sent after it.
pub proof fn law_failure_propagates<T, E>(
    done: Seq<Exchange<E>>,
    steps: nat,
    result: Result<T, E>,
)
    requires
        ran_until_failure(done, steps, result),
        result is Err,
    ensures
        done.last().reply == Err::<Seq<u8>, E>(result->Err_0),
        forall|i: int| 0 <= i < done.len() - 1 ==> (#[trigger] done[i]).reply is Ok,
        forall|i: int| 0 <= i < done.len() ==> ((#[trigger] done[i]).reply is Err <==> i
            == done.len() - 1),
{
}

/// An operation that succeeded made every one of its transactions, and each
/// of them succeeded.
pub proof fn law_success_is_complete<T, E>(
    done: Seq<Exchange<E>>,
    steps: nat,
    result: Result<T, E>,
)
    requires
        ran_until_failure(done, steps, result),
        result is Ok,
    ensures
        done.len() == steps,
        forall|i: int| 0 <= i < done.len() ==> (#[trigger] done[i]).reply is Ok,
{
    assert forall|i: int| 0 <= i < done.len() implies (#[trigger] done[i]).reply is Ok by {
        if i == done.len() - 1 {
            assert(done[i] == done.last());
        }
    }
}

/// A read that fails made its one transfer and no other: the transfer was not
/// repeated, no register was written, and the error returned is the error of
/// that transfer, unchanged.
pub proof fn law_failed_read_propagates<E>(
    done: Seq<Exchange<E>>,
    register: Register,
    result: Result<u8, E>,
    other: Register,
)
    requires
        read_ran(done, register.addr(), result),
        result is Err,
    ensures
        done.len() == 1,
        done[0].request is Transfer,
        done[0].reply == Err::<Seq<u8>, E>(result->Err_0),
        untouched(done, other.addr()),
{
    assert(done[0] == done.last());
}

/// Reading a register writes to none, whether the read succeeds or fails.
pub proof fn law_read_touches_nothing<E>(
    done: Seq<Exchange<E>>,
    register: Register,
    result: Result<u8, E>,
    other: Register,
)
    requires
        read_ran(done, register.addr(), result),
    ensures
        untouched(done, other.addr()),
{
}

/// Writing a register leaves every other register alone, whether the write
/// succeeds or fails.
pub proof fn law_write_touches_one<E>(
    done: Seq<Exchange<E>>,
    register: Register,
    value: u8,
    result: Result<(), E>,
    other: Register,
)
    requires
        write_ran(done, register.addr(), value, result),
        other != register,
    ensures
        untouched(done, other.addr()),
{
    lemma_write_commands_differ(register, other);
}

/// Clearing the flags and fetching a sample write to the status register
/// alone, whether they succeed or fail.
pub proof fn law_status_operations_touch_status<T, E>(
    done: Seq<Exchange<E>>,
    n: nat,
    result: Result<T, E>,
    other: Register,
)
    requires
        flags_cleared(done, result) || sample_fetched(done, n, result),
        other != Register::Status1,
    ensures
        untouched(done, other.addr()),
{
    lemma_write_commands_differ(Register::Status1, other);
}

/// Switching the feed writes to the first feed register alone, and changes
/// no bit of it but bit 0.
pub proof fn law_feed_switch_touches_feed<E>(
    done: Seq<Exchange<E>>,
    on: bool,
    result: Result<(), E>,
    other: Register,
)
    requires
        feed_switched(done, on, result),
        other != Register::FeedConfig1,
    ensures
        untouched(done, other.addr()),
        done.len() > 1 ==> done[1].request->Write_frame[1] & 0xFE == done[0].value() & 0xFE,
        done.len() > 1 ==> (done[1].request->Write_frame[1] & 0x01 != 0) == on,
{
    lemma_write_commands_differ(Register::FeedConfig1, other);
    let v = done[0].value();
    assert((v | 0x01) & 0xFE == v & 0xFE && (v & 0xFE) & 0xFE == v & 0xFE && (v | 0x01) & 0x01 != 0
        && (v & 0xFE) & 0x01 == 0) by (bit_vector);
}

/// Starting a calibration writes to the first feed register and the
/// calibration register, and to no other.
pub proof fn law_calibration_touches_two<E>(
    done: Seq<Exchange<E>>,
    byte: u8,
    result: Result<(), E>,
    other: Register,
)
    requires
        calibration_started(done, byte, result),
        other != Register::FeedConfig1,
        other != Register::CalConfig1,
    ensures
        untouched(done, other.addr()),
{
    lemma_write_commands_differ(Register::FeedConfig1, other);
    lemma_write_commands_differ(Register::CalConfig1, other);
}

/// An initialisation writes to the status, system, feed and calibration
/// registers, and to no other; without calibration it leaves the calibration
/// register alone as well.
pub proof fn law_initialisation_touches_five<T, E>(
    done: Seq<Exchange<E>>,
    config1: u8,
    config2: u8,
    calibrate: bool,
    result: Result<T, E>,
    other: Register,
)
    requires
        initialised(done, config1, config2, calibrate, result),
        other != Register::Status1,
        other != Register::SysConfig1,
        other != Register::FeedConfig1,
        other != Register::FeedConfig2,
        calibrate ==> other != Register::CalConfig1,
    ensures
        untouched(done, other.addr()),
{
    lemma_write_commands_differ(Register::Status1, other);
    lemma_write_commands_differ(Register::SysConfig1, other);
    lemma_write_commands_differ(Register::FeedConfig1, other);
    lemma_write_commands_differ(Register::FeedConfig2, other);
    if other != Register::CalConfig1 {
        lemma_write_commands_differ(Register::CalConfig1, other);
    }
}

/// An initialisation that stopped at a failure returns the error of the
/// transaction that failed, and the registers of the steps after it were not
/// written: the run writes the status, system, second feed, calibration and
/// first feed registers in this order, and a register whose step was not
/// reached is untouched.
pub proof fn law_failed_initialisation_keeps_later_registers<T, E>(
    done: Seq<Exchange<E>>,
    config1: u8,
    config2: u8,
    calibrate: bool,
    result: Result<T, E>,
)
    requires
        initialised(done, config1, config2, calibrate, result),
        result is Err,
    ensures
        done.last().reply == Err::<Seq<u8>, E>(result->Err_0),
        forall|i: int| 0 <= i < done.len() - 1 ==> (#[trigger] done[i]).reply is Ok,
        done.len() <= 1 ==> untouched(done, Register::SysConfig1.addr()),
        done.len() <= 2 ==> untouched(done, Register::FeedConfig2.addr()),
        !calibrate && done.len() <= 3 ==> untouched(done, Register::FeedConfig1.addr()),
        calibrate && done.len() <= 4 ==> untouched(done, Register::FeedConfig1.addr()),
        calibrate && done.len() <= 5 ==> untouched(done, Register::CalConfig1.addr()),
        !calibrate ==> untouched(done, Register::CalConfig1.addr()),
{
    lemma_write_commands_differ(Register::Status1, Register::SysConfig1);
    lemma_write_commands_differ(Register::Status1, Register::FeedConfig2);
    lemma_write_commands_differ(Register::Status1, Register::FeedConfig1);
    lemma_write_commands_differ(Register::Status1, Register::CalConfig1);
    lemma_write_commands_differ(Register::SysConfig1, Register::FeedConfig2);
    lemma_write_commands_differ(Register::SysConfig1, Register::FeedConfig1);
    lemma_write_commands_differ(Register::SysConfig1, Register::CalConfig1);
    lemma_write_commands_differ(Register::FeedConfig2, Register::FeedConfig1);
    lemma_write_commands_differ(Register::FeedConfig2, Register::CalConfig1);
    lemma_write_commands_differ(Register::FeedConfig1, Register::CalConfig1);
}

/// The first feed register that a configuration composes for a mode holds
/// the configuration's own axis and filter flags, whatever those of the mode
/// are, and the mode's bits everywhere else but in bit 0.
pub proof fn law_config_overrides_common_flags(config: Config, mode_byte: u8)
    ensures
        (config.feed_config1_spec(mode_byte) & 0x04 != 0) == !config.filter,
        (config.feed_config1_spec(mode_byte) & 0x08 != 0) == !config.x,
        (config.feed_config1_spec(mode_byte) & 0x10 != 0) == !config.y,
        config.feed_config1_spec(mode_byte) & 0x01 == 0x01,
        config.feed_config1_spec(mode_byte) & 0xE2 == mode_byte & 0xE2,
        config.feed_config1_spec(mode_byte) == (mode_byte & 0xE2) + 1 + 4 * bit(!config.filter)
            + 8 * bit(!config.x) + 16 * bit(!config.y),
{
    let ny = bit(!config.y);
    let nx = bit(!config.x);
    let nf = bit(!config.filter);
    let byte = config.feed_config1_spec(mode_byte);
    assert((byte & 0x04 != 0) == (nf == 1) && (byte & 0x08 != 0) == (nx == 1) && (byte & 0x10 != 0)
        == (ny == 1) && byte & 0x01 == 0x01 && byte & 0xE2 == mode_byte & 0xE2 && byte == (
    mode_byte & 0xE2) + 1 + 4 * nf + 8 * nx + 16 * ny) by (bit_vector)
        requires
            ny <= 1 && nx <= 1 && nf <= 1,
            byte == (mode_byte & !0x1Cu8) | 1u8 | ny << 4u8 | nx << 3u8 | nf << 2u8,
    ;
}

} // verus!

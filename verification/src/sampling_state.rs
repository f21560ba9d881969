//! The order in which the fields of the sampling register may be written.
//!
//! What the four bits of the sample rate field mean depends on the mode bit
//! and on the oversampling bit. The builder of the sampling register
//! therefore offers a write only where it cannot leave a sample rate behind
//! that was chosen for other settings. Its markers record the state; this
//! module says what the states are, which writes each state offers, and what
//! follows from that for every chain of writes.
use vstd::prelude::*;

verus! {

/// What is known of the mode bit.
pub enum ModeState {
    /// Not written yet.
    Unset,
    /// Written: normal mode.
    Normal,
    /// Written: USB mode.
    Usb,
}

/// What is known of the base oversampling rate bit.
pub enum BosrState {
    /// Not written yet.
    Unset,
    /// Written: clear.
    IsClear,
    /// Written: set.
    IsSet,
}

/// What is known of the sample rate field.
pub enum SrState {
    /// Not written yet.
    Unset,
    /// Written for the mode and oversampling rate that the state holds.
    IsSet,
}

/// The state of a builder of the sampling register.
pub struct SamplingState {
    pub mode: ModeState,
    pub bosr: BosrState,
    pub sr: SrState,
}

/// A write to a field of the sampling register.
pub enum SamplingOp {
    /// A write to the mode bit: USB mode or normal mode.
    WriteMode { usb: bool },
    /// A write to the base oversampling rate bit.
    WriteBosr { set: bool },
    /// A write to the sample rate field.
    WriteSr { code: u8 },
    /// A write to the bit that halves the core clock.
    WriteClkidiv2 { value: bool },
    /// A write to the bit that halves the output clock.
    WriteClkodiv2 { value: bool },
}

/// The state of a fresh builder: nothing written.
pub open spec fn initial_state() -> SamplingState {
    SamplingState { mode: ModeState::Unset, bosr: BosrState::Unset, sr: SrState::Unset }
}

/// Whether the write sets the sample rate.
pub open spec fn writes_sample_rate(op: SamplingOp) -> bool {
    op is WriteSr
}

/// Whether the write changes what the sample rate field means.
pub open spec fn writes_mode_or_ratio(op: SamplingOp) -> bool {
    op is WriteMode || op is WriteBosr
}

/// Whether a builder in state `s` offers the write `op`.
///
/// The mode bit and the oversampling bit can each be written once, and only
/// before the sample rate. The sample rate can be written once the mode is
/// known and, in USB mode, the oversampling bit too. The clock dividers can
/// be written at any time.
pub open spec fn offered(s: SamplingState, op: SamplingOp) -> bool {
    match op {
        SamplingOp::WriteMode { .. } => s.mode is Unset && s.sr is Unset,
        SamplingOp::WriteBosr { .. } => s.bosr is Unset && s.sr is Unset,
        SamplingOp::WriteSr { .. } => s.mode is Normal || (s.mode is Usb && !(s.bosr is Unset)),
        SamplingOp::WriteClkidiv2 { .. } => true,
        SamplingOp::WriteClkodiv2 { .. } => true,
    }
}

/// The state that the write `op` leaves a builder of state `s` in.
pub open spec fn state_after(s: SamplingState, op: SamplingOp) -> SamplingState {
    match op {
        SamplingOp::WriteMode { usb } => SamplingState {
            mode: if usb {
                ModeState::Usb
            } else {
                ModeState::Normal
            },
            ..s
        },
        SamplingOp::WriteBosr { set } => SamplingState {
            bosr: if set {
                BosrState::IsSet
            } else {
                BosrState::IsClear
            },
            ..s
        },
        SamplingOp::WriteSr { .. } => SamplingState { sr: SrState::IsSet, ..s },
        SamplingOp::WriteClkidiv2 { .. } => s,
        SamplingOp::WriteClkodiv2 { .. } => s,
    }
}

/// Whether a builder in state `s` can hand out its command.
pub open spec fn can_finalize(s: SamplingState) -> bool {
    s.sr is IsSet
}

/// Whether the data sheet gives the sample rate code `code` a meaning in
/// state `s`.
pub open spec fn documented_code(s: SamplingState, code: u8) -> bool {
    match s.mode {
        ModeState::Normal => code <= 0b0011 || code == 0b0110 || code == 0b0111 || (0b1000 <= code
            <= 0b1011) || code == 0b1111,
        ModeState::Usb => match s.bosr {
            BosrState::IsClear => code <= 0b0011 || code == 0b0110 || code == 0b0111,
            BosrState::IsSet => (0b1000 <= code <= 0b1011) || code == 0b1111,
            BosrState::Unset => false,
        },
        ModeState::Unset => false,
    }
}

/// The state that a rate code of six bits stands for: its lowest bit is the
/// mode bit, the next one the oversampling bit, the upper four the sample
/// rate.
pub open spec fn state_of_rate_code(code: u8) -> SamplingState {
    SamplingState {
        mode: if code % 2 == 1 {
            ModeState::Usb
        } else {
            ModeState::Normal
        },
        bosr: if (code / 2) % 2 == 1 {
            BosrState::IsSet
        } else {
            BosrState::IsClear
        },
        sr: SrState::IsSet,
    }
}

/// Whether the rate code `code` of six bits is one for a master clock that
/// is, or is not, the clock of USB mode, and holds a sample rate code that
/// the data sheet gives a meaning under the code's mode and oversampling bit.
pub open spec fn documented_rate_code(usb: bool, code: u8) -> bool {
    &&& code < 64
    &&& (code % 2 == 1) == usb
    &&& documented_code(state_of_rate_code(code), code / 4)
}

/// The state that the chain of writes `ops` leaves a builder of state `s` in,
/// or `None` where the builder does not offer one of them in its turn.
pub open spec fn run(s: SamplingState, ops: Seq<SamplingOp>) -> Option<SamplingState>
    decreases ops.len(),
{
    if ops.len() == 0 {
        Some(s)
    } else {
        let before = run(s, ops.drop_last());
        if before is Some && offered(before->0, ops.last()) {
            Some(state_after(before->0, ops.last()))
        } else {
            None
        }
    }
}

/// Once the sample rate is written, neither the mode nor the oversampling
/// bit can be written any more.
pub proof fn lemma_sample_rate_closes_mode_and_ratio(s: SamplingState, op: SamplingOp)
    requires
        can_finalize(s),
        writes_mode_or_ratio(op),
    ensures
        !offered(s, op),
{
}

/// A write to the sample rate makes the command available; a write to a
/// clock divider changes nothing of that.
pub proof fn lemma_write_effect_on_finalize(s: SamplingState, op: SamplingOp)
    requires
        offered(s, op),
    ensures
        writes_sample_rate(op) ==> can_finalize(state_after(s, op)),
        !writes_sample_rate(op) ==> can_finalize(state_after(s, op)) == can_finalize(s),
{
}

/// A chain that the builder offers to the end has offered its beginning.
pub proof fn lemma_run_prefix(s: SamplingState, ops: Seq<SamplingOp>)
    requires
        ops.len() > 0,
        run(s, ops) is Some,
    ensures
        run(s, ops.drop_last()) is Some,
        offered(run(s, ops.drop_last())->0, ops.last()),
        run(s, ops)->0 == state_after(run(s, ops.drop_last())->0, ops.last()),
{
}

/// After a chain of writes the command is available if and only if it was
/// available before or the chain holds a write to the sample rate.
pub proof fn lemma_finalize_iff_sample_rate_written(s: SamplingState, ops: Seq<SamplingOp>)
    requires
        run(s, ops) is Some,
    ensures
        can_finalize(run(s, ops)->0) <==> (can_finalize(s) || exists|i: int|
            0 <= i < ops.len() && writes_sample_rate(#[trigger] ops[i])),
    decreases ops.len(),
{
    if ops.len() > 0 {
        let prefix = ops.drop_last();
        lemma_run_prefix(s, ops);
        lemma_finalize_iff_sample_rate_written(s, prefix);
        let before = run(s, prefix)->0;
        lemma_write_effect_on_finalize(before, ops.last());
        if can_finalize(before) && !can_finalize(s) {
            let i = choose|i: int| 0 <= i < prefix.len() && writes_sample_rate(#[trigger] prefix[i]);
            assert(writes_sample_rate(ops[i]));
        }
        if writes_sample_rate(ops.last()) {
            assert(writes_sample_rate(ops[ops.len() - 1]));
        }
        if exists|i: int| 0 <= i < ops.len() && writes_sample_rate(#[trigger] ops[i]) {
            let i = choose|i: int| 0 <= i < ops.len() && writes_sample_rate(#[trigger] ops[i]);
            if i < prefix.len() {
                assert(writes_sample_rate(prefix[i]));
            }
        }
    }
}

/// From a fresh builder the command is available exactly after the chains
/// that hold a write to the sample rate.
pub proof fn lemma_fresh_builder_finalizes_iff_sample_rate_written(ops: Seq<SamplingOp>)
    requires
        run(initial_state(), ops) is Some,
    ensures
        can_finalize(run(initial_state(), ops)->0) <==> exists|i: int|
            0 <= i < ops.len() && writes_sample_rate(#[trigger] ops[i]),
{
    lemma_finalize_iff_sample_rate_written(initial_state(), ops);
}

/// In a chain that the builder offers, no write to the mode or to the
/// oversampling bit comes after a write to the sample rate: every such write
/// stands before the first sample rate.
pub proof fn lemma_mode_and_ratio_precede_sample_rate(
    s: SamplingState,
    ops: Seq<SamplingOp>,
    i: int,
    j: int,
)
    requires
        run(s, ops) is Some,
        0 <= i < j < ops.len(),
        writes_sample_rate(ops[i]),
    ensures
        !writes_mode_or_ratio(ops[j]),
    decreases ops.len(),
{
    let prefix = ops.drop_last();
    lemma_run_prefix(s, ops);
    if j < ops.len() - 1 {
        assert(prefix[i] == ops[i]);
        assert(prefix[j] == ops[j]);
        lemma_mode_and_ratio_precede_sample_rate(s, prefix, i, j);
    } else {
        assert(writes_sample_rate(prefix[i]));
        lemma_finalize_iff_sample_rate_written(s, prefix);
        if writes_mode_or_ratio(ops[j]) {
            lemma_sample_rate_closes_mode_and_ratio(run(s, prefix)->0, ops[j]);
        }
    }
}

} // verus!

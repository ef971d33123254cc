use vstd::prelude::*;
use crate::gain::{GainModel, GainParameter};

verus! {

/// The parameters that the bridge reports on.
#[derive(Clone, Copy, Debug, PartialEq, Eq, Structural)]
pub enum ParamId {
    Gain,
}

impl ParamId {
    /// The parameter's id in the host and in the message protocol.
    pub fn id(&self) -> (r: &'static str)
        ensures
            r@ == "gain"@,
    {
        proof {
            reveal_strlit("gain");
        }
        "gain"
    }
}

/// An intent sent by the user interface. Gain values are `f32` bit patterns.
#[derive(Clone, Copy, Debug, PartialEq, Eq, Structural)]
pub enum Intent {
    SetGain { value: u32 },
}

/// A report sent to the user interface once per tick. Values are `f32` bit patterns.
#[derive(Clone, Copy, Debug, PartialEq, Eq, Structural)]
pub enum Snapshot {
    ParamChange { param: ParamId, value: u32 },
    PeakMeterData { value: u32 },
}

/// What a tick asks of the host and sends to the user interface.
pub struct Tick {
    /// Values to commit, in order and as received, each bracketed as begin-change,
    /// set-value, end-change; the host clamps them into the parameter's range.
    pub commits: Vec<u32>,
    /// Reports for the user interface, in order.
    pub messages: Vec<Snapshot>,
    /// The index of the first inbound message that failed to decode, if any: a protocol
    /// violation, after which no further message of the tick is looked at.
    pub malformed: Option<usize>,
}

pub open spec fn intent_value(i: Intent) -> u32 {
    match i {
        Intent::SetGain { value } => value,
    }
}

/// Some inbound message failed to decode.
pub open spec fn has_malformed(inbound: Seq<Option<Intent>>) -> bool {
    exists|i: int| 0 <= i < inbound.len() && inbound[i] is None
}

/// The first inbound message that failed to decode.
pub open spec fn is_first_malformed(inbound: Seq<Option<Intent>>, k: int) -> bool {
    &&& 0 <= k < inbound.len()
    &&& inbound[k] is None
    &&& forall|i: int| 0 <= i < k ==> inbound[i] is Some
}

/// The values handed to the host for the inbound intents, as received.
pub open spec fn tick_commits(inbound: Seq<Option<Intent>>) -> Seq<u32> {
    Seq::new(inbound.len(), |i: int| intent_value(inbound[i]->0))
}

/// The parameter after the inbound intents are written to it, in order.
pub open spec fn apply_intents(p: GainModel, inbound: Seq<Option<Intent>>) -> GainModel
    decreases inbound.len(),
{
    if inbound.len() == 0 {
        p
    } else {
        apply_intents(p, inbound.drop_last()).after_write(intent_value(inbound.last()->0))
    }
}

/// The parameter after a tick without malformed messages: the intents are written, and
/// the change flag is consumed whoever raised it.
pub open spec fn tick_state(p: GainModel, inbound: Seq<Option<Intent>>) -> GainModel {
    GainModel { changed: false, ..apply_intents(p, inbound) }
}

/// The reports of a tick without malformed messages: a parameter change only when no
/// intent came from the user interface and the flag was up, then the peak level always.
pub open spec fn tick_messages(p: GainModel, inbound: Seq<Option<Intent>>, peak: u32) -> Seq<
    Snapshot,
> {
    if inbound.len() == 0 && p.changed {
        seq![
            Snapshot::ParamChange { param: ParamId::Gain, value: p.target },
            Snapshot::PeakMeterData { value: peak },
        ]
    } else {
        seq![Snapshot::PeakMeterData { value: peak }]
    }
}

/// Writing intents keeps the range, and leaves the last intent's value, clamped, as the
/// target.
pub proof fn lemma_apply_intents(p: GainModel, inbound: Seq<Option<Intent>>)
    ensures
        apply_intents(p, inbound).range == p.range,
        inbound.len() == 0 ==> apply_intents(p, inbound) == p,
        inbound.len() > 0 ==> apply_intents(p, inbound).target == p.range.clamp_spec(
            intent_value(inbound.last()->0),
        ),
    decreases inbound.len(),
{
    if inbound.len() > 0 {
        lemma_apply_intents(p, inbound.drop_last());
    }
}

/// Runs one tick of the control bridge over the messages that arrived since the last one
/// and the peak level that the audio engine published.
///
/// Each intent is committed to the parameter in order. A message that failed to decode
/// is a protocol violation: the tick stops there, keeping what was committed before it,
/// reports its index and sends nothing. Otherwise the change flag is consumed, and
/// reported only when no intent of this tick raised it; the peak level always follows.
pub fn tick(param: &mut GainParameter, inbound: &Vec<Option<Intent>>, peak: u32) -> (t: Tick)
    requires
        old(param).wf(),
    ensures
        final(param).wf(),
        has_malformed(inbound@) <==> t.malformed is Some,
        t.malformed matches Some(k) ==> {
            &&& is_first_malformed(inbound@, k as int)
            &&& t.commits@ == tick_commits(inbound@.take(k as int))
            &&& final(param)@ == apply_intents(old(param)@, inbound@.take(k as int))
            &&& t.messages@ == Seq::<Snapshot>::empty()
        },
        t.malformed is None ==> {
            &&& t.commits@ == tick_commits(inbound@)
            &&& t.messages@ == tick_messages(old(param)@, inbound@, peak)
            &&& final(param)@ == tick_state(old(param)@, inbound@)
        },
{
    let n = inbound.len();
    let ghost p0 = param@;
    let mut commits: Vec<u32> = Vec::new();
    let mut malformed: Option<usize> = None;
    let mut j: usize = 0;
    while j < n && malformed.is_none()
        invariant
            n == inbound@.len(),
            0 <= j <= n,
            malformed is None ==> forall|i: int| 0 <= i < j ==> inbound@[i] is Some,
            malformed matches Some(m) ==> m == j && is_first_malformed(inbound@, m as int),
            param.wf(),
            param@ == apply_intents(p0, inbound@.take(j as int)),
            commits@ == tick_commits(inbound@.take(j as int)),
        decreases n - j + (if malformed is None { 1int } else { 0int }),
    {
        match inbound[j] {
            Some(Intent::SetGain { value }) => {
                param.set_target(value);
                commits.push(value);
                proof {
                    let s = inbound@.take(j + 1);
                    assert(s.drop_last() =~= inbound@.take(j as int));
                    assert(tick_commits(s) =~= tick_commits(inbound@.take(j as int)).push(value));
                }
                j = j + 1;
            },
            None => {
                malformed = Some(j);
            },
        }
    }
    if malformed.is_some() {
        return Tick { commits, messages: Vec::new(), malformed };
    }
    proof {
        assert(inbound@.take(n as int) =~= inbound@);
        lemma_apply_intents(p0, inbound@);
    }
    let was_changed = param.take_changed();
    let mut messages: Vec<Snapshot> = Vec::new();
    if n == 0 && was_changed {
        messages.push(Snapshot::ParamChange { param: ParamId::Gain, value: param.target() });
    }
    messages.push(Snapshot::PeakMeterData { value: peak });
    proof {
        assert(messages@ =~= tick_messages(p0, inbound@, peak));
    }
    Tick { commits, messages, malformed }
}

/// A tick in which the user interface set the gain reports no parameter change, even
/// though its own write raised the change flag, and leaves the flag down.
pub proof fn lemma_ui_write_not_echoed(p: GainModel, inbound: Seq<Option<Intent>>, peak: u32)
    requires
        inbound.len() > 0,
        !has_malformed(inbound),
    ensures
        forall|i: int|
            0 <= i < tick_messages(p, inbound, peak).len() ==> !(tick_messages(
                p,
                inbound,
                peak,
            )[i] is ParamChange),
        !tick_state(p, inbound).changed,
{
}

/// A write of the host that changes the committed value is reported, with the new
/// value, by the next tick in which no intent arrives.
pub proof fn lemma_host_write_reported(p: GainModel, v: u32, peak: u32)
    requires
        p.range.wf(),
        p.range.contains(p.target),
        p.range.clamp_spec(v) != p.target,
    ensures
        tick_messages(p.after_write(v), seq![], peak) == seq![
            Snapshot::ParamChange { param: ParamId::Gain, value: p.range.clamp_spec(v) },
            Snapshot::PeakMeterData { value: peak },
        ],
        !tick_state(p.after_write(v), seq![]).changed,
{
}

/// Every tick ends with the peak level, whether or not a parameter changed.
pub proof fn lemma_peak_reported_every_tick(
    p: GainModel,
    inbound: Seq<Option<Intent>>,
    peak: u32,
)
    ensures
        tick_messages(p, inbound, peak).len() >= 1,
        tick_messages(p, inbound, peak).last() == (Snapshot::PeakMeterData { value: peak }),
        forall|i: int|
            0 <= i < tick_messages(p, inbound, peak).len() - 1 ==> tick_messages(
                p,
                inbound,
                peak,
            )[i] is ParamChange,
{
}

/// A tick with one intent setting the gain hands its value to the host once, makes the
/// clamped value the target, and echoes nothing back.
pub proof fn lemma_single_set_gain(p: GainModel, v: u32, peak: u32)
    ensures
        tick_commits(seq![Some(Intent::SetGain { value: v })]) == seq![v],
        tick_state(p, seq![Some(Intent::SetGain { value: v })]).target == p.range.clamp_spec(v),
        tick_messages(p, seq![Some(Intent::SetGain { value: v })], peak) == seq![
            Snapshot::PeakMeterData { value: peak },
        ],
{
    let s = seq![Some(Intent::SetGain { value: v })];
    assert(tick_commits(s) =~= seq![v]);
    lemma_apply_intents(p, s);
}

} // verus!

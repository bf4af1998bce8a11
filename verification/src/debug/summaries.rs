//! Section summaries and small decisions of the debug overlay tabs, over
//! integers and strings. Float read-outs (positions, rates) stay with the
//! caller.

use vstd::prelude::*;

use crate::debug::collision_history::COLLISION_HISTORY_CAP;
use crate::network::NETWORK_HISTORY_CAP;
use crate::text::{append_decimal, append_str, decimal, owned};

verus! {

/// A count, or a dash when it is unknown.
pub open spec fn count_or_dash(n: Option<u64>) -> Seq<char> {
    match n {
        Some(v) => decimal(v as nat),
        None => "—"@,
    }
}

fn append_count_or_dash(s: &mut String, n: Option<u64>)
    ensures
        final(s)@ == old(s)@ + count_or_dash(n),
{
    match n {
        Some(v) => append_decimal(s, v),
        None => append_str(s, "—"),
    }
}

/// Rendering of an optional count: the number, or a dash.
pub fn opt_count_label(n: Option<u64>) -> (s: String)
    ensures
        s@ == count_or_dash(n),
{
    let mut s = String::new();
    append_count_or_dash(&mut s, n);
    assert(s@ =~= count_or_dash(n));
    s
}

// ---------------------------------------------------------------------------
// Display section

pub open spec fn msaa_label_spec(samples: u32) -> Seq<char> {
    if samples == 4 {
        "4×"@
    } else if samples == 1 {
        "Off"@
    } else {
        decimal(samples as nat) + "×"@
    }
}

/// World MSAA as shown: `4×`, `Off` for one sample, else `n×`.
pub fn msaa_label(samples: u32) -> (s: String)
    ensures
        s@ == msaa_label_spec(samples),
{
    if samples == 4 {
        owned("4×")
    } else if samples == 1 {
        owned("Off")
    } else {
        let mut s = String::new();
        append_decimal(&mut s, samples as u64);
        append_str(&mut s, "×");
        assert(s@ =~= msaa_label_spec(samples));
        s
    }
}

pub open spec fn display_summary_spec(percent: u32, samples: u32, internal: Option<(u32, u32)>) -> Seq<
    char,
> {
    let head = decimal(percent as nat) + "% "@ + msaa_label_spec(samples);
    match internal {
        Some((w, h)) => head + " → "@ + decimal(w as nat) + "×"@ + decimal(h as nat),
        None => head,
    }
}

/// `"{p}% {msaa} → {w}×{h}"`, or `"{p}% {msaa}"` without an internal size.
pub fn display_summary(percent: u32, samples: u32, internal: Option<(u32, u32)>) -> (s: String)
    ensures
        s@ == display_summary_spec(percent, samples, internal),
{
    let mut s = String::new();
    append_decimal(&mut s, percent as u64);
    append_str(&mut s, "% ");
    let m = msaa_label(samples);
    append_str(&mut s, m.as_str());
    match internal {
        Some((w, h)) => {
            append_str(&mut s, " → ");
            append_decimal(&mut s, w as u64);
            append_str(&mut s, "×");
            append_decimal(&mut s, h as u64);
        },
        None => {},
    }
    assert(s@ =~= display_summary_spec(percent, samples, internal));
    s
}

/// `"{label}{w} × {h}"`: one dimension line of the display section.
pub fn dimension_line(label: &str, dims: (u32, u32)) -> (s: String)
    ensures
        s@ == label@ + decimal(dims.0 as nat) + " × "@ + decimal(dims.1 as nat),
{
    let mut s = owned(label);
    append_decimal(&mut s, dims.0 as u64);
    append_str(&mut s, " × ");
    append_decimal(&mut s, dims.1 as u64);
    s
}

// ---------------------------------------------------------------------------
// Skeleton tab

/// Highest bone index of the inspected skeleton.
pub const SKELETON_INSPECT_MAX: u8 = 15;

/// `"{index} {name}"` of the inspected bone, or a dash.
pub fn skeleton_summary(inspect: Option<(u8, &str)>) -> (s: String)
    ensures
        s@ == (match inspect {
            Some((i, n)) => decimal(i as nat) + " "@ + n@,
            None => "—"@,
        }),
{
    match inspect {
        Some((i, n)) => {
            let mut s = String::new();
            append_decimal(&mut s, i as u64);
            append_str(&mut s, " ");
            append_str(&mut s, n);
            assert(s@ =~= decimal(i as nat) + " "@ + n@);
            s
        },
        None => owned("—"),
    }
}

pub open spec fn skeleton_step_spec(index: u8, forward: bool) -> u8 {
    if forward {
        if index + 1 > SKELETON_INSPECT_MAX {
            SKELETON_INSPECT_MAX
        } else {
            (index + 1) as u8
        }
    } else if index == 0 {
        0
    } else {
        (index - 1) as u8
    }
}

/// Prev / Next on the inspected bone: Prev stops at 0, Next at the last bone.
pub fn skeleton_step(index: u8, forward: bool) -> (i: u8)
    requires
        forward ==> index < u8::MAX,
    ensures
        i == skeleton_step_spec(index, forward),
{
    if forward {
        let next = index + 1;
        if next > SKELETON_INSPECT_MAX {
            SKELETON_INSPECT_MAX
        } else {
            next
        }
    } else {
        index.saturating_sub(1)
    }
}

// ---------------------------------------------------------------------------
// Now and player tabs

/// `"follow X/Y"`, with a dash for an axis that is not followed.
pub fn camera_follow_summary(following_x: bool, following_y: bool) -> (s: String)
    ensures
        s@ == "follow "@ + (if following_x { "X"@ } else { "—"@ }) + "/"@ + (if following_y {
            "Y"@
        } else {
            "—"@
        }),
{
    let mut s = owned("follow ");
    append_str(&mut s, if following_x { "X" } else { "—" });
    append_str(&mut s, "/");
    append_str(&mut s, if following_y { "Y" } else { "—" });
    s
}

/// `"known {k} · seq {seq} · pred on|off"`.
pub fn replica_prediction_summary(known: u64, seq: Option<u64>, prediction_active: bool) -> (s:
    String)
    ensures
        s@ == "known "@ + decimal(known as nat) + " · seq "@ + count_or_dash(seq) + " · pred "@
            + (if prediction_active { "on"@ } else { "off"@ }),
{
    let mut s = owned("known ");
    append_decimal(&mut s, known);
    append_str(&mut s, " · seq ");
    append_count_or_dash(&mut s, seq);
    append_str(&mut s, " · pred ");
    append_str(&mut s, if prediction_active { "on" } else { "off" });
    s
}

/// `"{stage} | {n} ents"`.
pub fn stage_summary(stage_name: &str, entity_count: u64) -> (s: String)
    ensures
        s@ == stage_name@ + " | "@ + decimal(entity_count as nat) + " ents"@,
{
    let mut s = owned(stage_name);
    append_str(&mut s, " | ");
    append_decimal(&mut s, entity_count);
    append_str(&mut s, " ents");
    s
}

// ---------------------------------------------------------------------------
// Diagnostics tab

/// `"{len} / {cap}"` of the collision history.
pub fn collision_history_summary(len: usize) -> (s: String)
    ensures
        s@ == decimal(len as nat) + " / "@ + decimal(COLLISION_HISTORY_CAP as nat),
{
    let mut s = String::new();
    append_decimal(&mut s, len as u64);
    append_str(&mut s, " / ");
    append_decimal(&mut s, COLLISION_HISTORY_CAP as u64);
    assert(s@ =~= decimal(len as nat) + " / "@ + decimal(COLLISION_HISTORY_CAP as nat));
    s
}

// ---------------------------------------------------------------------------
// Network tab

/// `"{state} | {rtt}"`: the connection state's name and the RTT read-out.
pub fn connection_summary(state_name: &str, rtt_label: &str) -> (s: String)
    ensures
        s@ == state_name@ + " | "@ + rtt_label@,
{
    let mut s = owned(state_name);
    append_str(&mut s, " | ");
    append_str(&mut s, rtt_label);
    s
}

pub open spec fn aoi_summary_spec(
    known: Option<u16>,
    replicas: u64,
    candidates: Option<u16>,
    epoch: u64,
) -> Seq<char> {
    "known "@ + (match known {
        Some(k) => decimal(k as nat),
        None => decimal(replicas as nat),
    }) + " | cand "@ + (match candidates {
        Some(c) => decimal(c as nat),
        None => "—"@,
    }) + " | epoch "@ + decimal(epoch as nat)
}

/// `"known {k} | cand {c} | epoch {e}"`: the observer's Known count (the
/// replica count when the observer gave none), its candidates, its epoch.
pub fn aoi_summary(known: Option<u16>, replicas: u64, candidates: Option<u16>, epoch: u64) -> (s:
    String)
    ensures
        s@ == aoi_summary_spec(known, replicas, candidates, epoch),
{
    let mut s = owned("known ");
    match known {
        Some(k) => append_decimal(&mut s, k as u64),
        None => append_decimal(&mut s, replicas),
    }
    append_str(&mut s, " | cand ");
    match candidates {
        Some(c) => append_decimal(&mut s, c as u64),
        None => append_str(&mut s, "—"),
    }
    append_str(&mut s, " | epoch ");
    append_decimal(&mut s, epoch);
    assert(s@ =~= aoi_summary_spec(known, replicas, candidates, epoch));
    s
}

/// `"seq {n}"` of the gameplay input.
pub fn input_summary(seq: u64) -> (s: String)
    ensures
        s@ == "seq "@ + decimal(seq as nat),
{
    let mut s = owned("seq ");
    append_decimal(&mut s, seq);
    s
}

pub open spec fn replica_summary_spec(
    seq: Option<u64>,
    tick: u64,
    enters: u64,
    updates: u64,
    leaves: u64,
) -> Seq<char> {
    "seq "@ + count_or_dash(seq) + " | tick "@ + decimal(tick as nat) + " | E "@ + decimal(
        enters as nat,
    ) + " U "@ + decimal(updates as nat) + " L "@ + decimal(leaves as nat)
}

/// `"seq {s} | tick {t} | E {e} U {u} L {l}"` of the authoritative replica.
pub fn replica_summary(seq: Option<u64>, tick: u64, enters: u64, updates: u64, leaves: u64) -> (s:
    String)
    ensures
        s@ == replica_summary_spec(seq, tick, enters, updates, leaves),
{
    let mut s = owned("seq ");
    append_count_or_dash(&mut s, seq);
    append_str(&mut s, " | tick ");
    append_decimal(&mut s, tick);
    append_str(&mut s, " | E ");
    append_decimal(&mut s, enters);
    append_str(&mut s, " U ");
    append_decimal(&mut s, updates);
    append_str(&mut s, " L ");
    append_decimal(&mut s, leaves);
    assert(s@ =~= replica_summary_spec(seq, tick, enters, updates, leaves));
    s
}

/// `"holds {h} | snaps {s} | dups {d}"` of remote interpolation.
pub fn interpolation_summary(holds: u64, snaps: u64, dup_skips: u64) -> (s: String)
    ensures
        s@ == "holds "@ + decimal(holds as nat) + " | snaps "@ + decimal(snaps as nat)
            + " | dups "@ + decimal(dup_skips as nat),
{
    let mut s = owned("holds ");
    append_decimal(&mut s, holds);
    append_str(&mut s, " | snaps ");
    append_decimal(&mut s, snaps);
    append_str(&mut s, " | dups ");
    append_decimal(&mut s, dup_skips);
    assert(s@ =~= "holds "@ + decimal(holds as nat) + " | snaps "@ + decimal(snaps as nat)
        + " | dups "@ + decimal(dup_skips as nat));
    s
}

/// `"pending {p} | ack {a} | debt {d}"` of local prediction.
pub fn prediction_summary(pending: u64, last_ack: u64, debt: u64) -> (s: String)
    ensures
        s@ == "pending "@ + decimal(pending as nat) + " | ack "@ + decimal(last_ack as nat)
            + " | debt "@ + decimal(debt as nat),
{
    let mut s = owned("pending ");
    append_decimal(&mut s, pending);
    append_str(&mut s, " | ack ");
    append_decimal(&mut s, last_ack);
    append_str(&mut s, " | debt ");
    append_decimal(&mut s, debt);
    assert(s@ =~= "pending "@ + decimal(pending as nat) + " | ack "@ + decimal(last_ack as nat)
        + " | debt "@ + decimal(debt as nat));
    s
}

/// The failure section's summary: a dash before any session ended, `ok`
/// when the last end was benign, else the failure's label. The caller gives
/// whether the last failure is benign and its label.
pub fn failure_summary(last: Option<(bool, &str)>) -> (s: String)
    ensures
        s@ == (match last {
            None => "—"@,
            Some((true, _)) => "ok"@,
            Some((false, label)) => label@,
        }),
{
    match last {
        None => owned("—"),
        Some((benign, label)) => if benign {
            owned("ok")
        } else {
            owned(label)
        },
    }
}

/// `"{len} / {cap}"` of the network history.
pub fn network_history_summary(len: usize) -> (s: String)
    ensures
        s@ == decimal(len as nat) + " / "@ + decimal(NETWORK_HISTORY_CAP as nat),
{
    let mut s = String::new();
    append_decimal(&mut s, len as u64);
    append_str(&mut s, " / ");
    append_decimal(&mut s, NETWORK_HISTORY_CAP as u64);
    assert(s@ =~= decimal(len as nat) + " / "@ + decimal(NETWORK_HISTORY_CAP as nat));
    s
}

} // verus!

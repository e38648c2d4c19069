use vstd::prelude::*;

use crate::config::Config;
use crate::mode::Mode;
use crate::text::same_text;
use crate::propagation::PropagationMode;

verus! {

/// One reading of the rig: both VFOs with their mode and frequency.
#[derive(Debug, Clone, PartialEq, Eq)]
pub struct RigSnapshot {
    pub rx_vfo: String,
    pub tx_vfo: String,
    pub rx_mode: Mode,
    pub rx_frequency: u64,
    pub tx_mode: Mode,
    pub tx_frequency: u64,
}

/// The record sent to Wavelog after each reading.
#[derive(Debug, Clone, PartialEq, Eq)]
pub struct Update {
    pub radio: String,
    pub frequency: u64,
    pub mode: Mode,
    pub frequency_rx: Option<u64>,
    pub mode_rx: Option<Mode>,
    pub prop_mode: Option<PropagationMode>,
    pub power: Option<u32>,
    pub sat_name: Option<String>,
}

/// An [`Update`] with its strings seen as character sequences.
pub struct UpdateView {
    pub radio: Seq<char>,
    pub frequency: u64,
    pub mode: Mode,
    pub frequency_rx: Option<u64>,
    pub mode_rx: Option<Mode>,
    pub prop_mode: Option<PropagationMode>,
    pub power: Option<u32>,
    pub sat_name: Option<Seq<char>>,
}

impl View for Update {
    type V = UpdateView;

    open spec fn view(&self) -> UpdateView {
        UpdateView {
            radio: self.radio@,
            frequency: self.frequency,
            mode: self.mode,
            frequency_rx: self.frequency_rx,
            mode_rx: self.mode_rx,
            prop_mode: self.prop_mode,
            power: self.power,
            sat_name: match self.sat_name {
                Some(s) => Some(s@),
                None => None,
            },
        }
    }
}

/// A satellite whose downlink the rig reports on both VFOs, with the
/// distance in Hz from that downlink down to the uplink.
pub struct SatelliteOffset {
    pub designator: &'static str,
    pub offset_hz: u64,
}

/// The satellites whose transmit frequency is corrected, as designator and offset.
pub open spec fn offset_table() -> Seq<(Seq<char>, u64)> {
    seq![("QO-100"@, 8089500000u64)]
}

/// The offset configured for a designator, if the table holds it.
pub open spec fn offset_for(designator: Seq<char>) -> Option<u64> {
    if exists|i: int| 0 <= i < offset_table().len() && (#[trigger] offset_table()[i]).0 == designator {
        let i = choose|i: int| 0 <= i < offset_table().len() && (#[trigger] offset_table()[i]).0 == designator;
        Some(offset_table()[i].1)
    } else {
        None
    }
}

/// The transmit frequency to report: the rig's own, less the satellite's
/// offset when the rig shows the same frequency on both VFOs and that
/// frequency is at least the offset; when the offset is larger than the
/// frequency, the frequency is left as it is.
pub open spec fn corrected_frequency(s: RigSnapshot, designator: Seq<char>) -> u64 {
    match offset_for(designator) {
        Some(off) => if s.tx_frequency == s.rx_frequency && s.tx_frequency >= off {
            (s.tx_frequency - off) as u64
        } else {
            s.tx_frequency
        },
        None => s.tx_frequency,
    }
}

/// The update that a snapshot and the configuration call for.
pub open spec fn synthesized(s: RigSnapshot, radio: Seq<char>, designator: Seq<char>) -> UpdateView {
    UpdateView {
        radio: radio,
        frequency: corrected_frequency(s, designator),
        mode: s.tx_mode,
        frequency_rx: Some(s.rx_frequency),
        mode_rx: Some(s.rx_mode),
        prop_mode: if designator.len() > 0 { Some(PropagationMode::SAT) } else { None },
        power: None,
        sat_name: if designator.len() > 0 { Some(designator) } else { None },
    }
}

/// The table of satellite offsets.
pub fn satellite_offsets() -> (r: Vec<SatelliteOffset>)
    ensures
        r@.len() == offset_table().len(),
        forall|i: int| 0 <= i < r@.len() ==> (#[trigger] r@[i]).designator@ == offset_table()[i].0
            && r@[i].offset_hz == offset_table()[i].1,
{
    vec![SatelliteOffset { designator: "QO-100", offset_hz: 8089500000 }]
}

/// No designator appears twice in the offset table.
pub proof fn lemma_offset_designators_distinct()
    ensures
        forall|i: int, j: int|
            0 <= i < offset_table().len() && 0 <= j < offset_table().len()
                && (#[trigger] offset_table()[i]).0 == (#[trigger] offset_table()[j]).0 ==> i == j,
{
}

/// The downlink offset of the named satellite, if it has one.
pub fn downlink_offset(designator: &str) -> (r: Option<u64>)
    ensures
        r == offset_for(designator@),
{
    let table = satellite_offsets();
    let mut i: usize = 0;
    while i < table.len()
        invariant
            i <= table@.len(),
            table@.len() == offset_table().len(),
            forall|k: int| 0 <= k < table@.len() ==> (#[trigger] table@[k]).designator@ == offset_table()[k].0
                && table@[k].offset_hz == offset_table()[k].1,
            forall|k: int| 0 <= k < i ==> (#[trigger] offset_table()[k]).0 != designator@,
        decreases table@.len() - i,
    {
        if same_text(table[i].designator, designator) {
            proof {
                lemma_offset_designators_distinct();
                assert(offset_table()[i as int].0 == designator@);
            }
            return Some(table[i].offset_hz);
        }
        i += 1;
    }
    None
}

/// Builds the update for one snapshot.
pub fn synthesize(snapshot: &RigSnapshot, config: &Config) -> (r: Update)
    ensures
        r@ == synthesized(*snapshot, config.wavelog_radio@, config.sat@),
{
    let frequency = match downlink_offset(config.sat.as_str()) {
        Some(off) => {
            if snapshot.tx_frequency == snapshot.rx_frequency && snapshot.tx_frequency >= off {
                snapshot.tx_frequency - off
            } else {
                snapshot.tx_frequency
            }
        },
        None => snapshot.tx_frequency,
    };
    let satellite = !config.sat.as_str().is_empty();
    let r = Update {
        radio: config.wavelog_radio.clone(),
        frequency,
        mode: snapshot.tx_mode,
        frequency_rx: Some(snapshot.rx_frequency),
        mode_rx: Some(snapshot.rx_mode),
        prop_mode: if satellite { Some(PropagationMode::SAT) } else { None },
        power: None,
        sat_name: if satellite { Some(config.sat.clone()) } else { None },
    };
    r
}

/// QO-100 is corrected by 8089.5 MHz.
pub proof fn lemma_qo100_offset()
    ensures
        offset_for("QO-100"@) == Some(8089500000u64),
{
    lemma_offset_designators_distinct();
    assert(offset_table()[0].0 == "QO-100"@);
}

/// When the rig shows one frequency on both VFOs and the designator has an
/// offset no larger than that frequency, the update reports the rig's
/// frequency less the offset; when the two frequencies differ, or the
/// designator has no offset, it reports the rig's transmit frequency as is.
pub proof fn law_satellite_correction(s: RigSnapshot, radio: Seq<char>, designator: Seq<char>)
    ensures
        forall|off: u64|
            offset_for(designator) == Some(off) && s.tx_frequency == s.rx_frequency
                && s.tx_frequency >= off ==> synthesized(s, radio, designator).frequency
                == s.tx_frequency - off,
        (s.tx_frequency != s.rx_frequency || offset_for(designator) is None)
            ==> synthesized(s, radio, designator).frequency == s.tx_frequency,
{
}

/// Without a designator the update carries neither a propagation mode nor a
/// satellite name; with one it carries both, the satellite mode and the
/// designator itself.
pub proof fn law_satellite_fields(s: RigSnapshot, radio: Seq<char>, designator: Seq<char>)
    ensures
        designator.len() == 0 ==> synthesized(s, radio, designator).prop_mode is None
            && synthesized(s, radio, designator).sat_name is None,
        designator.len() > 0 ==> synthesized(s, radio, designator).prop_mode == Some(PropagationMode::SAT)
            && synthesized(s, radio, designator).sat_name == Some(designator),
{
}

/// Two updates built from the same snapshot and configuration agree field for field.
pub proof fn law_synthesis_deterministic(
    s: RigSnapshot,
    radio: Seq<char>,
    designator: Seq<char>,
    first: Update,
    second: Update,
)
    requires
        first@ == synthesized(s, radio, designator),
        second@ == synthesized(s, radio, designator),
    ensures
        first@ == second@,
{
}

} // verus!

use vstd::prelude::*;

use crate::mode::{mode_label, Mode};
use crate::propagation::{propagation_label, PropagationMode};
use crate::timestamp::{is_utc_time_of, timestamp_text, Timestamp};
use crate::update::{Update, UpdateView};

verus! {

/// Path of the radio endpoint under the Wavelog base URL.
pub const RADIO_API_PATH: &'static str = "/api/radio";

/// Longest wait for Wavelog's answer to one submission, in milliseconds.
pub const SUBMISSION_TIMEOUT_MS: u64 = 10000;

/// The body posted to Wavelog: every field present, absent values written
/// as empty labels or zeros.
#[derive(Debug, Clone, PartialEq, Eq)]
pub struct Request {
    pub key: String,
    pub timestamp: String,
    pub radio: String,
    pub frequency: u64,
    pub mode: String,
    pub frequency_rx: u64,
    pub mode_rx: String,
    pub prop_mode: String,
    pub power: u32,
    pub sat_name: String,
}

/// A [`Request`] with its strings seen as character sequences.
pub struct RequestView {
    pub key: Seq<char>,
    pub timestamp: Seq<char>,
    pub radio: Seq<char>,
    pub frequency: u64,
    pub mode: Seq<char>,
    pub frequency_rx: u64,
    pub mode_rx: Seq<char>,
    pub prop_mode: Seq<char>,
    pub power: u32,
    pub sat_name: Seq<char>,
}

impl View for Request {
    type V = RequestView;

    open spec fn view(&self) -> RequestView {
        RequestView {
            key: self.key@,
            timestamp: self.timestamp@,
            radio: self.radio@,
            frequency: self.frequency,
            mode: self.mode@,
            frequency_rx: self.frequency_rx,
            mode_rx: self.mode_rx@,
            prop_mode: self.prop_mode@,
            power: self.power,
            sat_name: self.sat_name@,
        }
    }
}

/// The body that an update, stamped at `at`, is sent as.
pub open spec fn request_for(key: Seq<char>, u: UpdateView, at: Timestamp) -> RequestView {
    RequestView {
        key: key,
        timestamp: timestamp_text(at),
        radio: u.radio,
        frequency: u.frequency,
        mode: mode_label(u.mode),
        frequency_rx: match u.frequency_rx {
            Some(f) => f,
            None => 0,
        },
        mode_rx: mode_label(
            match u.mode_rx {
                Some(m) => m,
                None => Mode::Unspecified,
            },
        ),
        prop_mode: propagation_label(
            match u.prop_mode {
                Some(p) => p,
                None => PropagationMode::Unspecified,
            },
        ),
        power: match u.power {
            Some(p) => p,
            None => 0,
        },
        sat_name: match u.sat_name {
            Some(s) => s,
            None => Seq::empty(),
        },
    }
}

impl Request {
    /// Flattens an update into the body sent to Wavelog, stamped at `at`.
    pub fn generate(key: &String, update: Update, at: &Timestamp) -> (r: Request)
        requires
            at.wf(),
        ensures
            r@ == request_for(key@, update@, *at),
    {
        let frequency_rx = match update.frequency_rx {
            Some(f) => f,
            None => 0,
        };
        let mode_rx = match update.mode_rx {
            Some(m) => m,
            None => Mode::Unspecified,
        };
        let prop_mode = match update.prop_mode {
            Some(p) => p,
            None => PropagationMode::Unspecified,
        };
        let power = match update.power {
            Some(p) => p,
            None => 0,
        };
        let sat_name = match update.sat_name {
            Some(s) => s,
            None => String::new(),
        };
        Request {
            key: key.clone(),
            timestamp: at.format(),
            radio: update.radio,
            frequency: update.frequency,
            mode: update.mode.to_label_string(),
            frequency_rx,
            mode_rx: mode_rx.to_label_string(),
            prop_mode: prop_mode.to_label_string(),
            power,
            sat_name,
        }
    }

    /// Flattens an update into the body sent to Wavelog, stamped with the
    /// current UTC time; `None` when the system clock cannot be read as a date.
    pub fn generate_now(key: &String, update: Update) -> (r: Option<Request>)
        ensures
            r matches Some(q) ==> exists|secs: u64, at: Timestamp|
                is_utc_time_of(secs as int, at) && q@ == request_for(key@, update@, at),
    {
        match Timestamp::now() {
            Some(at) => Some(Request::generate(key, update, &at)),
            None => None,
        }
    }
}

/// Whether Wavelog's answer status means that the update was accepted.
pub fn is_success(status: &str) -> (r: bool)
    ensures
        r == (status@ == "success"@),
{
    crate::text::same_text(status, "success")
}

/// An update without receive side, propagation mode, power or satellite is
/// sent with every field present: empty labels for the modes and the
/// satellite, zeros for the receive frequency and the power.
pub proof fn law_absent_fields_written_empty(key: Seq<char>, u: UpdateView, at: Timestamp)
    requires
        u.frequency_rx is None,
        u.mode_rx is None,
        u.prop_mode is None,
        u.power is None,
        u.sat_name is None,
    ensures
        request_for(key, u, at).frequency_rx == 0,
        request_for(key, u, at).mode_rx.len() == 0,
        request_for(key, u, at).prop_mode.len() == 0,
        request_for(key, u, at).power == 0,
        request_for(key, u, at).sat_name.len() == 0,
        request_for(key, u, at).key == key,
        request_for(key, u, at).radio == u.radio,
        request_for(key, u, at).frequency == u.frequency,
        request_for(key, u, at).mode == mode_label(u.mode),
{
    reveal_strlit("");
}

} // verus!

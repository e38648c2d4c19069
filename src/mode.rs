use vstd::prelude::*;

use crate::text::same_text;

verus! {

/// An ADIF modulation mode, with `Unspecified` standing for the absent value.
#[derive(Debug, Clone, Copy, PartialEq, Eq, Structural)]
pub enum Mode {
    AM,
    ARDOP,
    ATV,
    CHIP,
    CLO,
    CONTESTI,
    CW,
    DIGITALVOICE,
    DOMINO,
    DYNAMIC,
    FAX,
    FM,
    FSK441,
    FT8,
    HELL,
    ISCAT,
    JT4,
    JT6M,
    JT9,
    JT44,
    JT65,
    MFSK,
    MSK144,
    MT63,
    OLIVIA,
    OPERA,
    PAC,
    PAX,
    PKT,
    PSK,
    PSK2K,
    Q15,
    QRA64,
    ROS,
    RTTY,
    RTTYM,
    SSB,
    SSTV,
    T10,
    THOR,
    THRB,
    TOR,
    V4,
    VOI,
    WINMOR,
    WSPR,
    Unspecified,
}

/// The canonical ADIF name of a mode; `Unspecified` has the empty name.
pub open spec fn mode_label(m: Mode) -> Seq<char> {
    match m {
        Mode::AM => "AM"@,
        Mode::ARDOP => "ARDOP"@,
        Mode::ATV => "ATV"@,
        Mode::CHIP => "CHIP"@,
        Mode::CLO => "CLO"@,
        Mode::CONTESTI => "CONTESTI"@,
        Mode::CW => "CW"@,
        Mode::DIGITALVOICE => "DIGITALVOICE"@,
        Mode::DOMINO => "DOMINO"@,
        Mode::DYNAMIC => "DYNAMIC"@,
        Mode::FAX => "FAX"@,
        Mode::FM => "FM"@,
        Mode::FSK441 => "FSK441"@,
        Mode::FT8 => "FT8"@,
        Mode::HELL => "HELL"@,
        Mode::ISCAT => "ISCAT"@,
        Mode::JT4 => "JT4"@,
        Mode::JT6M => "JT6M"@,
        Mode::JT9 => "JT9"@,
        Mode::JT44 => "JT44"@,
        Mode::JT65 => "JT65"@,
        Mode::MFSK => "MFSK"@,
        Mode::MSK144 => "MSK144"@,
        Mode::MT63 => "MT63"@,
        Mode::OLIVIA => "OLIVIA"@,
        Mode::OPERA => "OPERA"@,
        Mode::PAC => "PAC"@,
        Mode::PAX => "PAX"@,
        Mode::PKT => "PKT"@,
        Mode::PSK => "PSK"@,
        Mode::PSK2K => "PSK2K"@,
        Mode::Q15 => "Q15"@,
        Mode::QRA64 => "QRA64"@,
        Mode::ROS => "ROS"@,
        Mode::RTTY => "RTTY"@,
        Mode::RTTYM => "RTTYM"@,
        Mode::SSB => "SSB"@,
        Mode::SSTV => "SSTV"@,
        Mode::T10 => "T10"@,
        Mode::THOR => "THOR"@,
        Mode::THRB => "THRB"@,
        Mode::TOR => "TOR"@,
        Mode::V4 => "V4"@,
        Mode::VOI => "VOI"@,
        Mode::WINMOR => "WINMOR"@,
        Mode::WSPR => "WSPR"@,
        Mode::Unspecified => ""@,
    }
}

/// Whether `s` is the name of a mode other than `Unspecified`.
pub open spec fn is_mode_name(s: Seq<char>) -> bool {
    exists|m: Mode| m != Mode::Unspecified && #[trigger] mode_label(m) == s
}

impl Mode {
    /// The label this mode carries in an outbound record.
    pub fn label(&self) -> (r: &'static str)
        ensures
            r@ == mode_label(*self),
    {
        match self {
            Mode::AM => "AM",
            Mode::ARDOP => "ARDOP",
            Mode::ATV => "ATV",
            Mode::CHIP => "CHIP",
            Mode::CLO => "CLO",
            Mode::CONTESTI => "CONTESTI",
            Mode::CW => "CW",
            Mode::DIGITALVOICE => "DIGITALVOICE",
            Mode::DOMINO => "DOMINO",
            Mode::DYNAMIC => "DYNAMIC",
            Mode::FAX => "FAX",
            Mode::FM => "FM",
            Mode::FSK441 => "FSK441",
            Mode::FT8 => "FT8",
            Mode::HELL => "HELL",
            Mode::ISCAT => "ISCAT",
            Mode::JT4 => "JT4",
            Mode::JT6M => "JT6M",
            Mode::JT9 => "JT9",
            Mode::JT44 => "JT44",
            Mode::JT65 => "JT65",
            Mode::MFSK => "MFSK",
            Mode::MSK144 => "MSK144",
            Mode::MT63 => "MT63",
            Mode::OLIVIA => "OLIVIA",
            Mode::OPERA => "OPERA",
            Mode::PAC => "PAC",
            Mode::PAX => "PAX",
            Mode::PKT => "PKT",
            Mode::PSK => "PSK",
            Mode::PSK2K => "PSK2K",
            Mode::Q15 => "Q15",
            Mode::QRA64 => "QRA64",
            Mode::ROS => "ROS",
            Mode::RTTY => "RTTY",
            Mode::RTTYM => "RTTYM",
            Mode::SSB => "SSB",
            Mode::SSTV => "SSTV",
            Mode::T10 => "T10",
            Mode::THOR => "THOR",
            Mode::THRB => "THRB",
            Mode::TOR => "TOR",
            Mode::V4 => "V4",
            Mode::VOI => "VOI",
            Mode::WINMOR => "WINMOR",
            Mode::WSPR => "WSPR",
            Mode::Unspecified => "",
        }
    }

    /// The label as an owned string.
    pub fn to_label_string(&self) -> (r: String)
        ensures
            r@ == mode_label(*self),
    {
        String::from_str(self.label())
    }

    /// The mode with the given ADIF name; any other text gives `Unspecified`.
    pub fn from_name(s: &str) -> (r: Mode)
        ensures
            is_mode_name(s@) ==> r != Mode::Unspecified && mode_label(r) == s@,
            !is_mode_name(s@) ==> r == Mode::Unspecified,
    {
        if same_text(s, "AM") {
            proof { assert(mode_label(Mode::AM) == s@); }
            Mode::AM
        } else if same_text(s, "ARDOP") {
            proof { assert(mode_label(Mode::ARDOP) == s@); }
            Mode::ARDOP
        } else if same_text(s, "ATV") {
            proof { assert(mode_label(Mode::ATV) == s@); }
            Mode::ATV
        } else if same_text(s, "CHIP") {
            proof { assert(mode_label(Mode::CHIP) == s@); }
            Mode::CHIP
        } else if same_text(s, "CLO") {
            proof { assert(mode_label(Mode::CLO) == s@); }
            Mode::CLO
        } else if same_text(s, "CONTESTI") {
            proof { assert(mode_label(Mode::CONTESTI) == s@); }
            Mode::CONTESTI
        } else if same_text(s, "CW") {
            proof { assert(mode_label(Mode::CW) == s@); }
            Mode::CW
        } else if same_text(s, "DIGITALVOICE") {
            proof { assert(mode_label(Mode::DIGITALVOICE) == s@); }
            Mode::DIGITALVOICE
        } else if same_text(s, "DOMINO") {
            proof { assert(mode_label(Mode::DOMINO) == s@); }
            Mode::DOMINO
        } else if same_text(s, "DYNAMIC") {
            proof { assert(mode_label(Mode::DYNAMIC) == s@); }
            Mode::DYNAMIC
        } else if same_text(s, "FAX") {
            proof { assert(mode_label(Mode::FAX) == s@); }
            Mode::FAX
        } else if same_text(s, "FM") {
            proof { assert(mode_label(Mode::FM) == s@); }
            Mode::FM
        } else if same_text(s, "FSK441") {
            proof { assert(mode_label(Mode::FSK441) == s@); }
            Mode::FSK441
        } else if same_text(s, "FT8") {
            proof { assert(mode_label(Mode::FT8) == s@); }
            Mode::FT8
        } else if same_text(s, "HELL") {
            proof { assert(mode_label(Mode::HELL) == s@); }
            Mode::HELL
        } else if same_text(s, "ISCAT") {
            proof { assert(mode_label(Mode::ISCAT) == s@); }
            Mode::ISCAT
        } else if same_text(s, "JT4") {
            proof { assert(mode_label(Mode::JT4) == s@); }
            Mode::JT4
        } else if same_text(s, "JT6M") {
            proof { assert(mode_label(Mode::JT6M) == s@); }
            Mode::JT6M
        } else if same_text(s, "JT9") {
            proof { assert(mode_label(Mode::JT9) == s@); }
            Mode::JT9
        } else if same_text(s, "JT44") {
            proof { assert(mode_label(Mode::JT44) == s@); }
            Mode::JT44
        } else if same_text(s, "JT65") {
            proof { assert(mode_label(Mode::JT65) == s@); }
            Mode::JT65
        } else if same_text(s, "MFSK") {
            proof { assert(mode_label(Mode::MFSK) == s@); }
            Mode::MFSK
        } else if same_text(s, "MSK144") {
            proof { assert(mode_label(Mode::MSK144) == s@); }
            Mode::MSK144
        } else if same_text(s, "MT63") {
            proof { assert(mode_label(Mode::MT63) == s@); }
            Mode::MT63
        } else if same_text(s, "OLIVIA") {
            proof { assert(mode_label(Mode::OLIVIA) == s@); }
            Mode::OLIVIA
        } else if same_text(s, "OPERA") {
            proof { assert(mode_label(Mode::OPERA) == s@); }
            Mode::OPERA
        } else if same_text(s, "PAC") {
            proof { assert(mode_label(Mode::PAC) == s@); }
            Mode::PAC
        } else if same_text(s, "PAX") {
            proof { assert(mode_label(Mode::PAX) == s@); }
            Mode::PAX
        } else if same_text(s, "PKT") {
            proof { assert(mode_label(Mode::PKT) == s@); }
            Mode::PKT
        } else if same_text(s, "PSK") {
            proof { assert(mode_label(Mode::PSK) == s@); }
            Mode::PSK
        } else if same_text(s, "PSK2K") {
            proof { assert(mode_label(Mode::PSK2K) == s@); }
            Mode::PSK2K
        } else if same_text(s, "Q15") {
            proof { assert(mode_label(Mode::Q15) == s@); }
            Mode::Q15
        } else if same_text(s, "QRA64") {
            proof { assert(mode_label(Mode::QRA64) == s@); }
            Mode::QRA64
        } else if same_text(s, "ROS") {
            proof { assert(mode_label(Mode::ROS) == s@); }
            Mode::ROS
        } else if same_text(s, "RTTY") {
            proof { assert(mode_label(Mode::RTTY) == s@); }
            Mode::RTTY
        } else if same_text(s, "RTTYM") {
            proof { assert(mode_label(Mode::RTTYM) == s@); }
            Mode::RTTYM
        } else if same_text(s, "SSB") {
            proof { assert(mode_label(Mode::SSB) == s@); }
            Mode::SSB
        } else if same_text(s, "SSTV") {
            proof { assert(mode_label(Mode::SSTV) == s@); }
            Mode::SSTV
        } else if same_text(s, "T10") {
            proof { assert(mode_label(Mode::T10) == s@); }
            Mode::T10
        } else if same_text(s, "THOR") {
            proof { assert(mode_label(Mode::THOR) == s@); }
            Mode::THOR
        } else if same_text(s, "THRB") {
            proof { assert(mode_label(Mode::THRB) == s@); }
            Mode::THRB
        } else if same_text(s, "TOR") {
            proof { assert(mode_label(Mode::TOR) == s@); }
            Mode::TOR
        } else if same_text(s, "V4") {
            proof { assert(mode_label(Mode::V4) == s@); }
            Mode::V4
        } else if same_text(s, "VOI") {
            proof { assert(mode_label(Mode::VOI) == s@); }
            Mode::VOI
        } else if same_text(s, "WINMOR") {
            proof { assert(mode_label(Mode::WINMOR) == s@); }
            Mode::WINMOR
        } else if same_text(s, "WSPR") {
            proof { assert(mode_label(Mode::WSPR) == s@); }
            Mode::WSPR
        } else {
            proof {
                assert forall|m: Mode| m != Mode::Unspecified implies #[trigger] mode_label(m) != s@ by {}
            }
            Mode::Unspecified
        }
    }
}

} // verus!

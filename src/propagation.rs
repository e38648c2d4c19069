use vstd::prelude::*;

verus! {

/// An ADIF propagation mechanism, with `Unspecified` standing for the absent value.
#[derive(Debug, Clone, Copy, PartialEq, Eq, Structural)]
pub enum PropagationMode {
    AS,
    AUE,
    AUR,
    BS,
    ECH,
    EME,
    ES,
    F2,
    FAI,
    GWAVE,
    INTERNET,
    ION,
    IRL,
    LOS,
    MS,
    RPT,
    RS,
    SAT,
    TEP,
    TR,
    Unspecified,
}

/// The ADIF code of a propagation mode; `Unspecified` has the empty code.
pub open spec fn propagation_code(p: PropagationMode) -> Seq<char> {
    match p {
        PropagationMode::AS => "AS"@,
        PropagationMode::AUE => "AUE"@,
        PropagationMode::AUR => "AUR"@,
        PropagationMode::BS => "BS"@,
        PropagationMode::ECH => "ECH"@,
        PropagationMode::EME => "EME"@,
        PropagationMode::ES => "ES"@,
        PropagationMode::F2 => "F2"@,
        PropagationMode::FAI => "FAI"@,
        PropagationMode::GWAVE => "GWAVE"@,
        PropagationMode::INTERNET => "INTERNET"@,
        PropagationMode::ION => "ION"@,
        PropagationMode::IRL => "IRL"@,
        PropagationMode::LOS => "LOS"@,
        PropagationMode::MS => "MS"@,
        PropagationMode::RPT => "RPT"@,
        PropagationMode::RS => "RS"@,
        PropagationMode::SAT => "SAT"@,
        PropagationMode::TEP => "TEP"@,
        PropagationMode::TR => "TR"@,
        PropagationMode::Unspecified => ""@,
    }
}

/// The human-readable label of a propagation mode; `Unspecified` has the empty label.
pub open spec fn propagation_label(p: PropagationMode) -> Seq<char> {
    match p {
        PropagationMode::AS => "Aircraft Scatter"@,
        PropagationMode::AUE => "Aurora-E"@,
        PropagationMode::AUR => "Aurora"@,
        PropagationMode::BS => "Back scatter"@,
        PropagationMode::ECH => "EchoLink"@,
        PropagationMode::EME => "Earth-Moon-Earth"@,
        PropagationMode::ES => "Sporadic E"@,
        PropagationMode::F2 => "F2 Reflection"@,
        PropagationMode::FAI => "Field Aligned Irregularities"@,
        PropagationMode::GWAVE => "Ground Wave"@,
        PropagationMode::INTERNET => "Internet-assisted"@,
        PropagationMode::ION => "Ionoscatter"@,
        PropagationMode::IRL => "IRLP"@,
        PropagationMode::LOS => "Line of Sight (includes transmission through obstacles such as walls)"@,
        PropagationMode::MS => "Meteor scatter"@,
        PropagationMode::RPT => "Terrestrial or atmospheric repeater or transponder"@,
        PropagationMode::RS => "Rain scatter"@,
        PropagationMode::SAT => "Satellite"@,
        PropagationMode::TEP => "Trans-equatorial"@,
        PropagationMode::TR => "Tropospheric ducting"@,
        PropagationMode::Unspecified => ""@,
    }
}

impl PropagationMode {
    /// The ADIF code of this mode.
    pub fn code(&self) -> (r: &'static str)
        ensures
            r@ == propagation_code(*self),
    {
        match self {
            PropagationMode::AS => "AS",
            PropagationMode::AUE => "AUE",
            PropagationMode::AUR => "AUR",
            PropagationMode::BS => "BS",
            PropagationMode::ECH => "ECH",
            PropagationMode::EME => "EME",
            PropagationMode::ES => "ES",
            PropagationMode::F2 => "F2",
            PropagationMode::FAI => "FAI",
            PropagationMode::GWAVE => "GWAVE",
            PropagationMode::INTERNET => "INTERNET",
            PropagationMode::ION => "ION",
            PropagationMode::IRL => "IRL",
            PropagationMode::LOS => "LOS",
            PropagationMode::MS => "MS",
            PropagationMode::RPT => "RPT",
            PropagationMode::RS => "RS",
            PropagationMode::SAT => "SAT",
            PropagationMode::TEP => "TEP",
            PropagationMode::TR => "TR",
            PropagationMode::Unspecified => "",
        }
    }

    /// The label this mode carries in an outbound record.
    pub fn label(&self) -> (r: &'static str)
        ensures
            r@ == propagation_label(*self),
    {
        match self {
            PropagationMode::AS => "Aircraft Scatter",
            PropagationMode::AUE => "Aurora-E",
            PropagationMode::AUR => "Aurora",
            PropagationMode::BS => "Back scatter",
            PropagationMode::ECH => "EchoLink",
            PropagationMode::EME => "Earth-Moon-Earth",
            PropagationMode::ES => "Sporadic E",
            PropagationMode::F2 => "F2 Reflection",
            PropagationMode::FAI => "Field Aligned Irregularities",
            PropagationMode::GWAVE => "Ground Wave",
            PropagationMode::INTERNET => "Internet-assisted",
            PropagationMode::ION => "Ionoscatter",
            PropagationMode::IRL => "IRLP",
            PropagationMode::LOS => "Line of Sight (includes transmission through obstacles such as walls)",
            PropagationMode::MS => "Meteor scatter",
            PropagationMode::RPT => "Terrestrial or atmospheric repeater or transponder",
            PropagationMode::RS => "Rain scatter",
            PropagationMode::SAT => "Satellite",
            PropagationMode::TEP => "Trans-equatorial",
            PropagationMode::TR => "Tropospheric ducting",
            PropagationMode::Unspecified => "",
        }
    }

    /// The label as an owned string.
    pub fn to_label_string(&self) -> (r: String)
        ensures
            r@ == propagation_label(*self),
    {
        String::from_str(self.label())
    }
}

} // verus!

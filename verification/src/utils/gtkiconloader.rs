use vstd::prelude::*;

verus! {

/// The icons the bar uses, by role.
#[derive(PartialEq, Clone)]
pub enum IconName {
    CPU,
    RAM,
    WIFI,
    BatteryFull,
    BatteryHigh,
    BatteryMid,
    BatteryLow,
    BatteryEmpty,
    BattetyPowerCharging,
    BatteryPowerNotCharging,
    BatteryPowerDisconnected,
    BatteryPowerUnknown,
    BatteryConservationOn,
    BatteryConservationOff,
    BatteryConservationUnknown,
    Headphone,
    VolumeHigh,
    VolumeMidium,
    VolumeLow,
    VolumeMute,
    Empty,
}

/// The glyph that renders each icon in the bar's icon font.
pub open spec fn load_label_spec(icon_name: IconName) -> Seq<char> {
    match icon_name {
        IconName::CPU => seq!['\u{e0a4}'],
        IconName::RAM => seq!['\u{e445}'],
        IconName::WIFI => seq!['\u{e379}'],
        IconName::BatteryFull => seq!['\u{e063}'],
        IconName::BatteryHigh => seq!['\u{e065}'],
        IconName::BatteryMid => seq!['\u{e064}'],
        IconName::BatteryLow => seq!['\u{e061}'],
        IconName::BatteryEmpty => seq!['\u{e061}'],
        IconName::BattetyPowerCharging => seq!['\u{e45d}'],
        IconName::BatteryPowerNotCharging => seq!['\u{e4e7}'],
        IconName::BatteryPowerDisconnected => seq!['\u{e45d}'],
        IconName::BatteryPowerUnknown => seq!['\u{e061}'],
        IconName::BatteryConservationOn => seq!['\u{e1f7}'],
        IconName::BatteryConservationOff => seq!['\u{e1f6}'],
        IconName::BatteryConservationUnknown => seq!['\u{e0ee}'],
        IconName::Headphone => seq!['\u{e0ec}'],
        IconName::VolumeHigh => seq!['\u{e19f}'],
        IconName::VolumeMidium => seq!['\u{e19e}'],
        IconName::VolumeLow => seq!['\u{e19d}'],
        IconName::VolumeMute => seq!['\u{e1a0}'],
        IconName::Empty => Seq::<char>::empty(),
    }
}

/// The glyph that renders each icon in the bar's icon font.
pub fn load_label(icon_name: IconName) -> (r: &'static str)
    ensures
        r@ == load_label_spec(icon_name),
{
    match icon_name {
        IconName::CPU => {
            let s: &'static str = "\u{e0a4}";
            proof {
                reveal_strlit("\u{e0a4}");
                assert(s@ =~= load_label_spec(icon_name));
            }
            s
        },
        IconName::RAM => {
            let s: &'static str = "\u{e445}";
            proof {
                reveal_strlit("\u{e445}");
                assert(s@ =~= load_label_spec(icon_name));
            }
            s
        },
        IconName::WIFI => {
            let s: &'static str = "\u{e379}";
            proof {
                reveal_strlit("\u{e379}");
                assert(s@ =~= load_label_spec(icon_name));
            }
            s
        },
        IconName::BatteryFull => {
            let s: &'static str = "\u{e063}";
            proof {
                reveal_strlit("\u{e063}");
                assert(s@ =~= load_label_spec(icon_name));
            }
            s
        },
        IconName::BatteryHigh => {
            let s: &'static str = "\u{e065}";
            proof {
                reveal_strlit("\u{e065}");
                assert(s@ =~= load_label_spec(icon_name));
            }
            s
        },
        IconName::BatteryMid => {
            let s: &'static str = "\u{e064}";
            proof {
                reveal_strlit("\u{e064}");
                assert(s@ =~= load_label_spec(icon_name));
            }
            s
        },
        IconName::BatteryLow => {
            let s: &'static str = "\u{e061}";
            proof {
                reveal_strlit("\u{e061}");
                assert(s@ =~= load_label_spec(icon_name));
            }
            s
        },
        IconName::BatteryEmpty => {
            let s: &'static str = "\u{e061}";
            proof {
                reveal_strlit("\u{e061}");
                assert(s@ =~= load_label_spec(icon_name));
            }
            s
        },
        IconName::BattetyPowerCharging => {
            let s: &'static str = "\u{e45d}";
            proof {
                reveal_strlit("\u{e45d}");
                assert(s@ =~= load_label_spec(icon_name));
            }
            s
        },
        IconName::BatteryPowerNotCharging => {
            let s: &'static str = "\u{e4e7}";
            proof {
                reveal_strlit("\u{e4e7}");
                assert(s@ =~= load_label_spec(icon_name));
            }
            s
        },
        IconName::BatteryPowerDisconnected => {
            let s: &'static str = "\u{e45d}";
            proof {
                reveal_strlit("\u{e45d}");
                assert(s@ =~= load_label_spec(icon_name));
            }
            s
        },
        IconName::BatteryPowerUnknown => {
            let s: &'static str = "\u{e061}";
            proof {
                reveal_strlit("\u{e061}");
                assert(s@ =~= load_label_spec(icon_name));
            }
            s
        },
        IconName::BatteryConservationOn => {
            let s: &'static str = "\u{e1f7}";
            proof {
                reveal_strlit("\u{e1f7}");
                assert(s@ =~= load_label_spec(icon_name));
            }
            s
        },
        IconName::BatteryConservationOff => {
            let s: &'static str = "\u{e1f6}";
            proof {
                reveal_strlit("\u{e1f6}");
                assert(s@ =~= load_label_spec(icon_name));
            }
            s
        },
        IconName::BatteryConservationUnknown => {
            let s: &'static str = "\u{e0ee}";
            proof {
                reveal_strlit("\u{e0ee}");
                assert(s@ =~= load_label_spec(icon_name));
            }
            s
        },
        IconName::Headphone => {
            let s: &'static str = "\u{e0ec}";
            proof {
                reveal_strlit("\u{e0ec}");
                assert(s@ =~= load_label_spec(icon_name));
            }
            s
        },
        IconName::VolumeHigh => {
            let s: &'static str = "\u{e19f}";
            proof {
                reveal_strlit("\u{e19f}");
                assert(s@ =~= load_label_spec(icon_name));
            }
            s
        },
        IconName::VolumeMidium => {
            let s: &'static str = "\u{e19e}";
            proof {
                reveal_strlit("\u{e19e}");
                assert(s@ =~= load_label_spec(icon_name));
            }
            s
        },
        IconName::VolumeLow => {
            let s: &'static str = "\u{e19d}";
            proof {
                reveal_strlit("\u{e19d}");
                assert(s@ =~= load_label_spec(icon_name));
            }
            s
        },
        IconName::VolumeMute => {
            let s: &'static str = "\u{e1a0}";
            proof {
                reveal_strlit("\u{e1a0}");
                assert(s@ =~= load_label_spec(icon_name));
            }
            s
        },
        IconName::Empty => {
            let s: &'static str = "";
            proof {
                reveal_strlit("");
                assert(s@ =~= load_label_spec(icon_name));
            }
            s
        },
    }
}

} // verus!

use rosu_pp_older::util::mods::{
    mirror_reflection, rate_as_single, GameMods, Mirror, Mods, Reflection,
};

#[test]
fn bits_answer_for_their_mods() {
    let mods: u32 = 1 | 8 | 64 | 1024;

    assert!(mods.nf());
    assert!(!mods.ez());
    assert!(!mods.td());
    assert!(mods.hd());
    assert!(!mods.hr());
    assert!(mods.dt());
    assert!(!mods.rx());
    assert!(!mods.ht());
    assert!(mods.fl());
    assert!(!mods.so());
    assert!(!mods.bl());
    assert!(!mods.tc());
}

#[test]
fn each_bit_is_one_mod() {
    assert!(2u32.ez());
    assert!(4u32.td());
    assert!(16u32.hr());
    assert!(128u32.rx());
    assert!(256u32.ht());
    assert!(4096u32.so());
    assert!(!(32u32.nf() || 32u32.ez() || 32u32.td() || 32u32.hd() || 32u32.hr()));
    assert!(!(32u32.dt() || 32u32.rx() || 32u32.ht() || 32u32.fl() || 32u32.so()));
}

#[test]
fn clock_rate_of_bits() {
    assert_eq!(f64::from_bits(0u32.clock_rate()), 1.0);
    assert_eq!(f64::from_bits(64u32.clock_rate()), 1.5);
    assert_eq!(f64::from_bits(256u32.clock_rate()), 0.75);
    assert_eq!(f64::from_bits((64u32 | 256).clock_rate()), 1.5);
}

#[test]
fn clock_rates_narrow_exactly() {
    for rate in [1.0f64, 1.5, 0.75] {
        assert_eq!(f32::from_bits(rate_as_single(rate.to_bits())), rate as f32);
        assert_eq!(f64::from(f32::from_bits(rate_as_single(rate.to_bits()))), rate);
    }
}

#[test]
fn bits_on_stable_and_lazer() {
    assert!(0u32.no_slider_head_acc(false));
    assert!(!0u32.no_slider_head_acc(true));
    assert_eq!(16u32.reflection(), Reflection::Vertical);
    assert_eq!(8u32.reflection(), Reflection::Unmirrored);
}

#[test]
fn legacy_mods_answer_like_bits() {
    let mods = GameMods::Legacy(2 | 16 | 256);

    assert!(mods.ez() && mods.hr() && mods.ht());
    assert!(!(mods.nf() || mods.hd() || mods.dt() || mods.bl() || mods.tc()));
    assert_eq!(f64::from_bits(mods.clock_rate()), 0.75);
    assert_eq!(mods.reflection(), Reflection::Vertical);
    assert!(mods.no_slider_head_acc(false));
    assert!(!mods.no_slider_head_acc(true));
    assert_eq!(mods.bits(), 2 | 16 | 256);
    assert!(matches!(GameMods::no_mod(), GameMods::Legacy(0)));
}

#[test]
fn intermode_mods_know_classic() {
    let classic = GameMods::Intermode {
        bits: 8,
        blinds: true,
        traceable: false,
        classic: true,
    };
    let plain = GameMods::Intermode {
        bits: 16,
        blinds: false,
        traceable: true,
        classic: false,
    };

    assert!(classic.hd() && classic.bl() && !classic.tc());
    assert!(classic.no_slider_head_acc(true));
    assert!(classic.no_slider_head_acc(false));
    assert!(!plain.no_slider_head_acc(true));
    assert!(plain.no_slider_head_acc(false));
    assert!(plain.tc() && !plain.bl());
    assert_eq!(plain.reflection(), Reflection::Vertical);
    assert_eq!(classic.reflection(), Reflection::Unmirrored);
}

fn lazer(bits: u32, classic: Option<Option<bool>>, mirror: Option<Mirror>) -> GameMods {
    GameMods::Lazer {
        bits,
        blinds: false,
        traceable: false,
        classic,
        mirror,
    }
}

#[test]
fn lazer_mods_read_the_classic_setting() {
    assert!(!lazer(0, None, None).no_slider_head_acc(true));
    assert!(lazer(0, None, None).no_slider_head_acc(false));
    assert!(lazer(0, Some(None), None).no_slider_head_acc(true));
    assert!(lazer(0, Some(Some(true)), None).no_slider_head_acc(true));
    assert!(!lazer(0, Some(Some(false)), None).no_slider_head_acc(true));
    assert!(!lazer(0, Some(Some(false)), None).no_slider_head_acc(false));
}

#[test]
fn lazer_mods_read_the_mirror_setting() {
    let axis = |s: &str| Some(Mirror::Osu(Some(s.to_owned())));

    assert_eq!(lazer(0, None, None).reflection(), Reflection::Unmirrored);
    assert_eq!(lazer(0, None, Some(Mirror::Osu(None))).reflection(), Reflection::Horizontal);
    assert_eq!(lazer(0, None, Some(Mirror::Catch)).reflection(), Reflection::Horizontal);
    assert_eq!(lazer(0, None, axis("1")).reflection(), Reflection::Vertical);
    assert_eq!(lazer(0, None, axis("2")).reflection(), Reflection::Both);
    assert_eq!(lazer(0, None, axis("0")).reflection(), Reflection::Unmirrored);
    assert_eq!(lazer(0, None, axis("12")).reflection(), Reflection::Unmirrored);
    assert_eq!(lazer(0, None, axis("")).reflection(), Reflection::Unmirrored);
    assert_eq!(lazer(16, None, axis("2")).reflection(), Reflection::Vertical);
    assert_eq!(mirror_reflection(&Mirror::Osu(Some("2".to_owned()))), Reflection::Both);
}

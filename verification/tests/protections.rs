use fbw::data::{Data, DataFrame};
use fbw::fixed::Fixed;
use fbw::input::Input;
use fbw::protections::NormalLawProtections;

fn fx(micros: i64) -> Fixed {
    Fixed::from_micros(micros)
}

fn cruise(aoa: i64, flaps: u8) -> Data {
    let mut data = Data::default();
    data.update(DataFrame {
        aoa: fx(aoa),
        flaps,
        gforce: fx(1_000_000),
        ias: fx(250_000_000),
        mach: fx(500_000),
        mmo: fx(820_000),
        vmo: fx(350_000_000),
        ..DataFrame::default()
    });
    data
}

fn stick(yoke_y: i64) -> Input {
    Input { yoke_y: fx(yoke_y), yoke_x: fx(0), rudder: fx(0) }
}

const TICK: i64 = 100_000;

#[test]
fn default_protections_are_normal() {
    let p = NormalLawProtections::default();
    assert!(!p.aoa_demand_active);
    assert_eq!(p.aoa_demand_deactivation_timer, fx(0));
    assert!(!p.high_speed_protection_active);
    assert_eq!(p.max_bank_angle, fx(67_000_000));
    assert_eq!(p.nominal_bank_angle, fx(33_000_000));
    assert_eq!(p.min_load_factor, fx(-1_000_000));
    assert_eq!(p.max_load_factor, fx(2_500_000));
    assert_eq!(p.min_pitch_angle, fx(-15_000_000));
    assert_eq!(p.max_pitch_angle, fx(30_000_000));
}

#[test]
fn aoa_demand_activates_at_alpha_max_with_neutral_stick() {
    let mut p = NormalLawProtections::default();
    p.aoa_demand_deactivation_timer = fx(123);
    p.update(fx(TICK), &cruise(12_000_000, 0), &stick(0));
    assert!(p.aoa_demand_active);
    assert_eq!(p.aoa_demand_deactivation_timer, fx(0));
    assert_eq!(p.max_bank_angle, fx(45_000_000));
    assert_eq!(p.nominal_bank_angle, fx(0));
}

#[test]
fn aoa_demand_activates_at_alpha_max_even_with_stick_forward() {
    let mut p = NormalLawProtections::default();
    p.update(fx(TICK), &cruise(11_083_333, 0), &stick(-1_000_000));
    assert!(p.aoa_demand_active);
    let mut q = NormalLawProtections::default();
    q.update(fx(TICK), &cruise(11_083_332, 0), &stick(-1));
    assert!(!q.aoa_demand_active);
}

#[test]
fn aoa_demand_activates_above_alpha_prot_unless_stick_forward() {
    let mut p = NormalLawProtections::default();
    p.update(fx(TICK), &cruise(8_595_238, 0), &stick(0));
    assert!(!p.aoa_demand_active);
    p.update(fx(TICK), &cruise(8_595_239, 0), &stick(-1));
    assert!(!p.aoa_demand_active);
    p.update(fx(TICK), &cruise(8_595_239, 0), &stick(0));
    assert!(p.aoa_demand_active);
    assert_eq!(p.aoa_demand_deactivation_timer, fx(0));
}

#[test]
fn aoa_demand_stays_for_a_tick_after_entry_at_alpha_max() {
    for yoke_y in [-500_000i64, -499_999, -1, 0, 1_000_000] {
        for aoa in [0i64, 8_000_000, 12_000_000] {
            let mut p = NormalLawProtections::default();
            p.update(fx(TICK), &cruise(11_083_333, 0), &stick(-1_000_000));
            assert!(p.aoa_demand_active);
            p.update(fx(10_000_000), &cruise(aoa, 0), &stick(yoke_y));
            assert!(p.aoa_demand_active);
        }
    }
}

#[test]
fn aoa_demand_is_left_at_once_with_stick_well_forward() {
    let mut p = NormalLawProtections::default();
    p.update(fx(TICK), &cruise(12_000_000, 0), &stick(0));
    p.update(fx(TICK), &cruise(12_000_000, 0), &stick(-500_001));
    assert!(!p.aoa_demand_active);
    assert_eq!(p.aoa_demand_deactivation_timer, fx(0));
    assert_eq!(p.max_bank_angle, fx(67_000_000));
    assert_eq!(p.nominal_bank_angle, fx(33_000_000));
}

#[test]
fn aoa_demand_is_left_after_half_a_second_forward() {
    let mut p = NormalLawProtections::default();
    p.update(fx(TICK), &cruise(12_000_000, 0), &stick(0));
    for tick in 1..=5i64 {
        p.update(fx(TICK), &cruise(5_000_000, 0), &stick(-100_000));
        assert!(p.aoa_demand_active);
        assert_eq!(p.aoa_demand_deactivation_timer, fx(tick * TICK));
    }
    p.update(fx(TICK), &cruise(5_000_000, 0), &stick(-100_000));
    assert!(!p.aoa_demand_active);
    assert_eq!(p.aoa_demand_deactivation_timer, fx(0));
}

#[test]
fn exit_timer_restarts_when_the_condition_breaks() {
    let mut p = NormalLawProtections::default();
    p.update(fx(TICK), &cruise(12_000_000, 0), &stick(0));
    for _ in 0..4 {
        p.update(fx(TICK), &cruise(5_000_000, 0), &stick(-100_000));
    }
    assert_eq!(p.aoa_demand_deactivation_timer, fx(400_000));
    p.update(fx(TICK), &cruise(5_000_000, 0), &stick(0));
    assert!(p.aoa_demand_active);
    assert_eq!(p.aoa_demand_deactivation_timer, fx(0));
    p.update(fx(TICK), &cruise(5_000_000, 0), &stick(-100_000));
    assert_eq!(p.aoa_demand_deactivation_timer, fx(100_000));
}

#[test]
fn exit_timer_restarts_when_alpha_reaches_alpha_max() {
    let mut p = NormalLawProtections::default();
    p.update(fx(TICK), &cruise(12_000_000, 0), &stick(0));
    for _ in 0..4 {
        p.update(fx(TICK), &cruise(5_000_000, 0), &stick(-100_000));
    }
    assert_eq!(p.aoa_demand_deactivation_timer, fx(400_000));
    p.update(fx(TICK), &cruise(11_083_333, 0), &stick(-100_000));
    assert!(p.aoa_demand_active);
    assert_eq!(p.aoa_demand_deactivation_timer, fx(0));
}

#[test]
fn exit_timer_saturates() {
    let mut p = NormalLawProtections::default();
    p.aoa_demand_active = true;
    p.aoa_demand_deactivation_timer = fx(499_999);
    p.update(fx(i64::MAX), &cruise(5_000_000, 0), &stick(-100_000));
    assert!(p.aoa_demand_active);
    assert_eq!(p.aoa_demand_deactivation_timer, fx(i64::MAX));
}

#[test]
fn high_speed_protection_follows_speed_and_mach() {
    let mut data = Data::default();
    let frame = DataFrame {
        ias: fx(350_000_000),
        vmo: fx(350_000_000),
        mach: fx(820_000),
        mmo: fx(820_000),
        ..DataFrame::default()
    };
    let mut p = NormalLawProtections::default();
    data.update(frame);
    p.update(fx(TICK), &data, &stick(0));
    assert!(!p.high_speed_protection_active);
    assert_eq!(p.max_bank_angle, fx(67_000_000));
    data.update(DataFrame { ias: fx(350_000_001), ..frame });
    p.update(fx(TICK), &data, &stick(0));
    assert!(p.high_speed_protection_active);
    assert!(!p.aoa_demand_active);
    assert_eq!(p.max_bank_angle, fx(45_000_000));
    assert_eq!(p.nominal_bank_angle, fx(0));
    data.update(DataFrame { mach: fx(820_001), ..frame });
    p.update(fx(TICK), &data, &stick(0));
    assert!(p.high_speed_protection_active);
    data.update(frame);
    p.update(fx(TICK), &data, &stick(0));
    assert!(!p.high_speed_protection_active);
    assert_eq!(p.nominal_bank_angle, fx(33_000_000));
}

#[test]
fn load_and_pitch_limits_follow_the_flaps() {
    let expected = [
        (0u8, -1_000_000i64, 2_500_000i64, 30_000_000i64),
        (1, 0, 2_000_000, 30_000_000),
        (2, 0, 2_000_000, 30_000_000),
        (3, 0, 2_000_000, 30_000_000),
        (4, 0, 2_000_000, 25_000_000),
    ];
    for (flaps, min_load, max_load, max_pitch) in expected {
        let mut p = NormalLawProtections::default();
        p.update(fx(TICK), &cruise(0, flaps), &stick(0));
        assert_eq!(p.min_load_factor, fx(min_load));
        assert_eq!(p.max_load_factor, fx(max_load));
        assert_eq!(p.max_pitch_angle, fx(max_pitch));
        assert_eq!(p.min_pitch_angle, fx(-15_000_000));
    }
}

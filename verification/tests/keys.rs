use nse_entropy::condition::Condition;
use nse_entropy::stage::StageTag;

fn condition(ye: &str, t: &str, rho: &str) -> Condition {
    Condition {
        electron_fraction: ye.to_string(),
        temperature: t.to_string(),
        density: rho.to_string(),
    }
}

#[test]
fn key_strips_the_decimal_point() {
    assert_eq!(condition("0.23", "1e10", "1e11").derive_key(), "023");
}

#[test]
fn key_of_one_decimal_digit() {
    assert_eq!(condition("0.5", "1e10", "1e11").derive_key(), "05");
}

#[test]
fn key_without_a_decimal_point_is_unchanged() {
    assert_eq!(condition("1", "1e10", "1e11").derive_key(), "1");
}

#[test]
fn path_follows_the_naming_scheme() {
    let c = condition("0.23", "1e10", "4e11");
    assert_eq!(
        c.dataset_path("runs/original", StageTag::Freezeout),
        "runs/original/Ye023/data/freezeout_Ye_023_T0_1e10_rho0_4e11.txt"
    );
}

#[test]
fn path_uses_the_stage_label() {
    let c = condition("0.5", "4e9", "1e13");
    assert_eq!(
        c.dataset_path("base", StageTag::Nse),
        "base/Ye05/data/NSE_Ye_05_T0_4e9_rho0_1e13.txt"
    );
    assert_eq!(
        c.dataset_path("base", StageTag::Last),
        "base/Ye05/data/last_Ye_05_T0_4e9_rho0_1e13.txt"
    );
}

#[test]
fn scientific_notation_matches_rust_formatting() {
    // the driver formats temperature and density with {:e}; the path embeds
    // that text verbatim
    let t: f64 = 1e10;
    let rho: f64 = 7e12;
    let c = condition("0.26", &format!("{:e}", t), &format!("{:e}", rho));
    assert_eq!(
        c.dataset_path("b", StageTag::Information),
        "b/Ye026/data/Information_Ye_026_T0_1e10_rho0_7e12.txt"
    );
}

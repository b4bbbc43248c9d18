use star_trader::date::GameDate;
use star_trader::display::{Tint, abbrev, class_short, delta_tint, footer_lines_needed};
use star_trader::goods::Merchandise;
use star_trader::parse::parse_i32;
use star_trader::screens::{Highlight, MenuItem, Screen};
use star_trader::star::StarClass;
use star_trader::text::{decimal_string, push_count, push_decimal, text};
use star_trader::world::{class_band, class_from_quarters};

#[test]
fn merchandise_names_codes_and_weights() {
    let labels: Vec<&str> = Merchandise::ALL.iter().map(|g| g.label()).collect();
    assert_eq!(labels, vec!["Uranium", "Metals", "Heavy Equip", "Medicine", "Software", "Star Gems"]);
    let codes: Vec<&str> = Merchandise::ALL.iter().map(|g| g.code()).collect();
    assert_eq!(codes, vec!["UR", "MET", "HE", "MED", "SOFT", "GEMS"]);
    let weights: Vec<u16> = Merchandise::ALL.iter().map(|g| g.weight_tons()).collect();
    assert_eq!(weights, vec![1, 1, 1, 1, 0, 0]);
}

#[test]
fn merchandise_index_round_trip() {
    for (i, g) in Merchandise::ALL.iter().enumerate() {
        assert_eq!(g.idx(), i);
        assert_eq!(Merchandise::from_idx(i), *g);
    }
}

#[test]
fn star_class_from_score_boundaries() {
    assert_eq!(StarClass::from_score(20), StarClass::I);
    assert_eq!(StarClass::from_score(15), StarClass::I);
    assert_eq!(StarClass::from_score(14), StarClass::II);
    assert_eq!(StarClass::from_score(10), StarClass::II);
    assert_eq!(StarClass::from_score(9), StarClass::III);
    assert_eq!(StarClass::from_score(5), StarClass::III);
    assert_eq!(StarClass::from_score(4), StarClass::IV);
    assert_eq!(StarClass::from_score(-3), StarClass::IV);
}

#[test]
fn star_class_scores_round_trip() {
    for c in [StarClass::I, StarClass::II, StarClass::III, StarClass::IV] {
        assert_eq!(StarClass::from_score(c.raw_score()), c);
    }
    assert_eq!(StarClass::I.raw_score(), 15);
    assert_eq!(StarClass::IV.raw_score(), 0);
}

#[test]
fn star_class_labels_and_banks() {
    assert_eq!(StarClass::I.label(), "Class I (Cosmopolitan)");
    assert_eq!(StarClass::II.label(), "Class II (Developed)");
    assert_eq!(StarClass::III.label(), "Class III (Underdeveloped)");
    assert_eq!(StarClass::IV.label(), "Class IV (Frontier)");
    assert!(StarClass::I.has_bank());
    assert!(StarClass::II.has_bank());
    assert!(!StarClass::III.has_bank());
    assert!(!StarClass::IV.has_bank());
    assert_eq!(class_short(StarClass::III), "III");
}

#[test]
fn development_quarters_round_to_classes() {
    // 14.5 points round up to 15: Class I; 14.25 round down to 14: Class II.
    assert_eq!(class_from_quarters(58), StarClass::I);
    assert_eq!(class_from_quarters(57), StarClass::II);
    assert_eq!(class_from_quarters(20), StarClass::III);
    assert_eq!(class_from_quarters(18), StarClass::III);
    assert_eq!(class_from_quarters(17), StarClass::IV);
    assert_eq!(class_from_quarters(-6), StarClass::IV);
    assert_eq!(class_band(40), 2);
    assert_eq!(class_band(39), 1);
    assert_eq!(class_band(20), 1);
    assert_eq!(class_band(19), 0);
}

#[test]
fn dates_roll_over_years() {
    let d = GameDate::new(1, 2070);
    assert_eq!(d.add_days(359), GameDate::new(360, 2070));
    assert_eq!(d.add_days(360), GameDate::new(1, 2071));
    assert_eq!(GameDate::new(300, 2070).add_days(100), GameDate::new(40, 2071));
    assert_eq!(GameDate::new(360, 2070).add_days(721), GameDate::new(1, 2073));
    assert_eq!(d.add_days(0), d);
}

#[test]
fn dates_count_and_compare() {
    let a = GameDate::new(10, 2070);
    let b = GameDate::new(5, 2071);
    assert_eq!(a.days_until(b), 355);
    assert_eq!(b.days_until(a), 0);
    assert!(a.precedes(b));
    assert!(!b.precedes(a));
    assert!(a.no_later_than(a));
    assert!(!a.precedes(a));
}

#[test]
fn decimal_text() {
    assert_eq!(decimal_string(0), "0");
    assert_eq!(decimal_string(-1234), "-1234");
    assert_eq!(decimal_string(i64::MIN), "-9223372036854775808");
    let mut s = text("x=");
    push_decimal(&mut s, 905);
    push_count(&mut s, 7);
    assert_eq!(s, "x=9057");
}

#[test]
fn parse_numbers_like_std() {
    assert_eq!(parse_i32("42"), Some(42));
    assert_eq!(parse_i32("007"), Some(7));
    assert_eq!(parse_i32("-5"), Some(-5));
    assert_eq!(parse_i32("+5"), Some(5));
    assert_eq!(parse_i32("2147483647"), Some(i32::MAX));
    assert_eq!(parse_i32("-2147483648"), Some(i32::MIN));
    assert_eq!(parse_i32("2147483648"), None);
    assert_eq!(parse_i32(""), None);
    assert_eq!(parse_i32("-"), None);
    assert_eq!(parse_i32("12a"), None);
    assert_eq!(parse_i32(" 1"), None);
    for s in ["0", "15", "-99", "123456"] {
        assert_eq!(parse_i32(s), s.parse::<i32>().ok());
    }
}

#[test]
fn menu_items_and_screens() {
    assert_eq!(MenuItem::NewGame.label(), "New Game");
    assert_eq!(MenuItem::LoadGame.detail(), "Resume the last save");
    assert_eq!(MenuItem::Quit.detail(), "Exit Star Trader");
    assert_eq!(MenuItem::at(2), Some(MenuItem::Instructions));
    assert_eq!(MenuItem::at(5), None);
    assert_eq!(Screen::game(), Screen::Game);
    assert_eq!(Screen::default(), Screen::Launch);
}

#[test]
fn highlights_expire() {
    let h = Highlight::new(20, 5);
    assert!(h.active(20));
    assert!(h.active(3));
    assert!(!h.active(21));
    assert!(!Highlight::new(20, 0).active(1));
    assert!(!Highlight::none().active(0));
}

#[test]
fn footer_line_count() {
    let hints = vec![
        (String::from("1/2/3"), String::from("focus panels")),
        (String::from("arrows"), String::from("move active")),
    ];
    // 5+1+12 = 18, then 5 + 6+1+11 = 23 more: 41 columns.
    assert_eq!(footer_lines_needed(41, &hints), 1);
    assert_eq!(footer_lines_needed(40, &hints), 2);
    assert_eq!(footer_lines_needed(10, &hints), 3);
    assert_eq!(footer_lines_needed(0, &[]), 1);
}

#[test]
fn abbreviations() {
    assert_eq!(abbrev("PIONEER", 10), "PIONEER");
    assert_eq!(abbrev("PIONEER", 7), "PIONEER");
    assert_eq!(abbrev("PIONEER", 5), "PION\u{2026}");
    assert_eq!(abbrev("PIONEER", 1), "P");
    assert_eq!(abbrev("PIONEER", 0), "");
}

#[test]
fn blinking_tints() {
    assert_eq!(delta_tint(Some(5), 0), Some(Tint::Gain));
    assert_eq!(delta_tint(Some(-5), 1), Some(Tint::Loss));
    assert_eq!(delta_tint(Some(5), 2), None);
    assert_eq!(delta_tint(Some(5), 4), Some(Tint::Gain));
    assert_eq!(delta_tint(None, 0), None);
}

#[test]
fn adding_days_composes() {
    let d = GameDate::new(350, 2070);
    assert_eq!(d.add_days(20), GameDate::new(10, 2071));
    assert_eq!(d.add_days(20).add_days(400), d.add_days(420));
    assert_eq!(d.add_days(0), d);
    assert!(d.no_later_than(d.add_days(5)));
}

use wareki_core::c_api;
use wareki_core::designator::{is_same_ignoring_case, is_same_letter, is_same_text};
use wareki_core::lookup::{find_era_named, find_era_on};
use wareki_core::{eras, CGregorianDate, Era, GregorianDate};

#[test]
fn eras_lists_the_five_eras_newest_first() {
    let table = eras();
    assert_eq!(table.len(), 5);
    let expected = [
        (Era::Reiwa, "令和", "令", "R", (2019, 5, 1)),
        (Era::Heisei, "平成", "平", "H", (1989, 1, 8)),
        (Era::Showa, "昭和", "昭", "S", (1926, 12, 25)),
        (Era::Taisho, "大正", "大", "T", (1912, 7, 30)),
        (Era::Meiji, "明治", "明", "M", (1868, 1, 25)),
    ];
    for (row, (era, name, short_name, romaji, (year, month, day))) in table.iter().zip(expected) {
        assert_eq!(row.era, era);
        assert_eq!(row.name, name);
        assert_eq!(row.short_name, short_name);
        assert_eq!(row.romaji, romaji);
        assert_eq!(row.start_date, GregorianDate { year, month, day });
    }
}

#[test]
fn eras_start_dates_strictly_descend() {
    let table = eras();
    for pair in table.windows(2) {
        assert!(pair[1].start_date.is_before(&pair[0].start_date));
        assert!(!pair[0].start_date.is_before(&pair[1].start_date));
    }
}

#[test]
fn era_order_is_oldest_first() {
    assert!(Era::Meiji < Era::Taisho);
    assert!(Era::Taisho < Era::Showa);
    assert!(Era::Showa < Era::Heisei);
    assert!(Era::Heisei < Era::Reiwa);
}

#[test]
fn is_before_orders_by_year_then_month_then_day() {
    let d = |year, month, day| GregorianDate { year, month, day };
    assert!(d(2019, 4, 30).is_before(&d(2019, 5, 1)));
    assert!(!d(2019, 5, 1).is_before(&d(2019, 4, 30)));
    assert!(!d(2019, 5, 1).is_before(&d(2019, 5, 1)));
    assert!(d(2018, 12, 31).is_before(&d(2019, 1, 1)));
    assert!(!d(2019, 1, 1).is_before(&d(2018, 12, 31)));
    assert!(d(2019, 5, 1).is_before(&d(2019, 5, 2)));
    assert!(d(-1, 12, 31).is_before(&d(0, 1, 1)));
    assert!(d(2019, 1, 31).is_before(&d(2019, 2, 1)));
}

#[test]
fn find_era_on_takes_the_newest_era_that_had_begun() {
    let table = eras();
    let d = |year, month, day| GregorianDate { year, month, day };
    assert_eq!(find_era_on(&table, &d(2024, 5, 1)), Some(0));
    assert_eq!(find_era_on(&table, &d(2019, 5, 1)), Some(0));
    assert_eq!(find_era_on(&table, &d(2019, 4, 30)), Some(1));
    assert_eq!(find_era_on(&table, &d(1989, 1, 7)), Some(2));
    assert_eq!(find_era_on(&table, &d(1926, 12, 24)), Some(3));
    assert_eq!(find_era_on(&table, &d(1912, 7, 29)), Some(4));
    assert_eq!(find_era_on(&table, &d(1868, 1, 25)), Some(4));
    assert_eq!(find_era_on(&table, &d(1868, 1, 24)), None);
    assert_eq!(find_era_on(&Vec::new(), &d(2024, 5, 1)), None);
}

#[test]
fn find_era_named_takes_the_first_row_that_fits() {
    let table = eras();
    assert_eq!(find_era_named(&table, "令和"), Some(0));
    assert_eq!(find_era_named(&table, "平"), Some(1));
    assert_eq!(find_era_named(&table, "s"), Some(2));
    assert_eq!(find_era_named(&table, "T"), Some(3));
    assert_eq!(find_era_named(&table, "明治"), Some(4));
    assert_eq!(find_era_named(&table, "blah"), None);
    assert_eq!(find_era_named(&Vec::new(), "令和"), None);
    let mut twice = eras();
    twice.extend(eras());
    assert_eq!(find_era_named(&twice, "明"), Some(4));
}

#[test]
fn a_row_is_designated_by_its_three_forms() {
    let table = eras();
    let reiwa = &table[0];
    assert!(reiwa.is_designated_by("令和"));
    assert!(reiwa.is_designated_by("令"));
    assert!(reiwa.is_designated_by("R"));
    assert!(reiwa.is_designated_by("r"));
    assert!(!reiwa.is_designated_by("和"));
    assert!(!reiwa.is_designated_by("平成"));
    assert!(!reiwa.is_designated_by("H"));
    assert!(!reiwa.is_designated_by(""));
}

#[test]
fn letters_match_in_either_ascii_case_only() {
    assert!(is_same_letter('R', 'r'));
    assert!(is_same_letter('r', 'R'));
    assert!(is_same_letter('R', 'R'));
    assert!(is_same_letter('令', '令'));
    assert!(is_same_letter('A', 'a'));
    assert!(is_same_letter('z', 'Z'));
    assert!(!is_same_letter('R', 'H'));
    assert!(!is_same_letter('@', '`'));
    assert!(!is_same_letter('[', '{'));
    assert!(!is_same_letter('0', 'P'));
    assert!(!is_same_letter('1', '\u{11}'));
    assert!(!is_same_letter('É', 'é'));
    assert!(!is_same_letter('K', '\u{212A}'));
    assert!(!is_same_letter('\u{10FFFF}', '\u{10FFDF}'));
}

#[test]
fn texts_compare_by_characters() {
    assert!(is_same_text("令和", "令和"));
    assert!(is_same_text("", ""));
    assert!(!is_same_text("令和", "令"));
    assert!(!is_same_text("令", "令和"));
    assert!(!is_same_text("令和", "昭和"));
    assert!(!is_same_text("令和", "令治"));
    assert!(!is_same_text("R", "r"));
    assert!(is_same_ignoring_case("R", "r"));
    assert!(is_same_ignoring_case("Heisei", "hEISEI"));
    assert!(is_same_ignoring_case("", ""));
    assert!(is_same_ignoring_case("令和", "令和"));
    assert!(!is_same_ignoring_case("R", "rr"));
    assert!(!is_same_ignoring_case("RR", "r"));
    assert!(!is_same_ignoring_case("R", "h"));
    assert!(!is_same_ignoring_case("ab", "aC"));
}

#[test]
fn flat_record_of_a_conversion() {
    assert_eq!(
        c_api::from_wareki(Some("令和"), 6, 5, 1),
        CGregorianDate { year: 2024, month: 5, day: 1, is_error: false }
    );
    assert_eq!(
        c_api::from_wareki(Some("h"), 1, 1, 8),
        CGregorianDate { year: 1989, month: 1, day: 8, is_error: false }
    );
    let failure = CGregorianDate { year: 0, month: 0, day: 0, is_error: true };
    assert_eq!(c_api::from_wareki(None, 6, 5, 1), failure);
    assert_eq!(c_api::from_wareki(Some("blah"), 6, 5, 1), failure);
    assert_eq!(c_api::from_wareki(Some("令和"), 0, 5, 1), failure);
    assert_eq!(c_api::from_wareki(Some("令和"), 5, 2, 29), failure);
    assert_eq!(c_api::from_wareki(Some("令和"), 1, 4, 30), failure);
    assert_eq!(c_api::from_wareki(Some("平成"), 32, 1, 1), failure);
}

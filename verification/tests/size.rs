use lsr::size::{
    units, units_si, DecimalSize, IntoSize, LongSize, Size, B, BYTE, GB, GIB, KB, KIB, MAX_SIZE_LEN,
    MB, MIB, PB, PIB, TB, TIB,
};
use lsr::ZERO_SIZE;

fn size_formatter_test(bytes: BYTE, expected: &str, si: bool) {
    let buf = if si { bytes.into_size().to_string_si() } else { bytes.into_size().to_string() };
    assert_eq!(buf, expected);
}

#[test]
fn size_formatter_under_1kib() {
    size_formatter_test(495, "495B", false)
}

#[test]
fn size_formatter_exactly_1_kib() {
    size_formatter_test(1024, "1KiB", false)
}

#[test]
fn size_formatter_under_1mib() {
    size_formatter_test(1024 * 512, "512KiB", false)
}

#[test]
fn size_formatter_exactly_1mib() {
    size_formatter_test(1024 * 1024, "1MiB", false)
}

#[test]
fn size_formatter_under_1gib() {
    size_formatter_test(299 * 1024 * 1024, "299MiB", false)
}

#[test]
fn size_formatter_exactly_1gib() {
    size_formatter_test(KIB.pow(3), "1GiB", false)
}

#[test]
fn size_formatter_under_1tib() {
    size_formatter_test(KIB.pow(3) * 128, "128GiB", false)
}

#[test]
fn size_formatter_exactly_1tib() {
    size_formatter_test(KIB.pow(4), "1TiB", false)
}

#[test]
fn size_formatter_under_1pib() {
    size_formatter_test(KIB.pow(4) * 256, "256TiB", false)
}

#[test]
fn size_formatter_exactly_1pib() {
    size_formatter_test(KIB.pow(5), "1PiB", false)
}

#[test]
fn exactsize_formatter_3pib_2gb_3b() {
    let buf = (3 * PIB + 2 * GIB + 3 * B).into_longsize().to_string();
    assert_eq!(buf, "3PiB 2GiB 3B");
}

#[test]
fn unit_constants_are_powers_of_their_base() {
    assert_eq!(B, 1);
    assert_eq!(KB, 1000);
    assert_eq!(MB, KB * 1000);
    assert_eq!(GB, MB * 1000);
    assert_eq!(TB, GB * 1000);
    assert_eq!(PB, TB * 1000);
    assert_eq!(KIB, 1024);
    assert_eq!(MIB, KIB * 1024);
    assert_eq!(GIB, MIB * 1024);
    assert_eq!(TIB, GIB * 1024);
    assert_eq!(PIB, TIB * 1024);
    assert_eq!(MAX_SIZE_LEN, 7);
}

#[test]
fn unit_tables_hold_six_units_smallest_first() {
    let binary = units();
    let decimal = units_si();
    let binary_names: Vec<&str> = binary.iter().map(|unit| unit.name).collect();
    let decimal_names: Vec<&str> = decimal.iter().map(|unit| unit.name).collect();
    assert_eq!(binary_names, vec!["B", "KiB", "MiB", "GiB", "TiB", "PiB"]);
    assert_eq!(decimal_names, vec!["B", "KB", "MB", "GB", "TB", "PB"]);
    for table in [binary, decimal] {
        assert_eq!(table[0].size, 1);
        for pair in table.windows(2) {
            assert!(pair[0].size < pair[1].size);
        }
    }
}

#[test]
fn size_zero_is_the_marker() {
    assert_eq!(ZERO_SIZE, "-");
    assert_eq!(Size::new(0).to_string(), "-");
    assert_eq!(Size::new(0).to_string_si(), "-");
    assert_eq!(DecimalSize::new(0).to_string(), "-");
    assert_eq!(LongSize::new(0).to_string(), "0");
    assert_eq!(LongSize::new(0).to_string_si(), "0");
}

#[test]
fn size_below_1024_is_its_numeral_and_b() {
    for bytes in 1..1024u64 {
        assert_eq!(Size::new(bytes).to_string(), format!("{}B", bytes));
    }
}

#[test]
fn size_1000_differs_by_unit_system() {
    size_formatter_test(1000, "1000B", false);
    size_formatter_test(1000, "1KB", true);
    size_formatter_test(999, "999B", true);
    size_formatter_test(1_999_999, "1MB", true);
    size_formatter_test(u64::MAX, "16383PiB", false);
    size_formatter_test(u64::MAX, "18446PB", true);
}

#[test]
fn size_never_selects_a_unit_above_the_count() {
    let table = units();
    for bytes in [1u64, 1023, 1024, 1025, MIB - 1, MIB, GIB + 5, TIB, PIB - 1, PIB, u64::MAX] {
        let found = lsr::size::select_unit(bytes, &table).unwrap();
        assert!(table[found].size <= bytes);
        for unit in &table[found + 1..] {
            assert!(unit.size > bytes);
        }
    }
    assert_eq!(lsr::size::select_unit(0, &table), None);
}

#[test]
fn size_with_width_is_padded_on_the_right() {
    let table = units();
    assert_eq!(Size::new(1024).fmt_with_units(Some(7), &table), "1KiB   ");
    assert_eq!(Size::new(1024).fmt_with_units(Some(4), &table), "1KiB");
    assert_eq!(Size::new(1024).fmt_with_units(Some(2), &table), "1KiB");
    assert_eq!(Size::new(1024).fmt_with_units(None, &table), "1KiB");
    assert_eq!(Size::new(0).fmt_with_units(Some(3), &table), "-  ");
    assert_eq!(DecimalSize::new(1536).fmt_with_units(Some(8), &table), "1.5KiB  ");
    assert_eq!(DecimalSize::new(0).fmt_with_units(Some(7), &table), "-      ");
}

#[test]
fn decimal_size_drops_fractions_below_a_tenth() {
    assert_eq!(DecimalSize::new(1000).to_string_si(), "1KB");
    assert_eq!(DecimalSize::new(1049).to_string_si(), "1KB");
    assert_eq!(DecimalSize::new(1099).to_string_si(), "1KB");
    assert_eq!(DecimalSize::new(1024).to_string(), "1KiB");
    assert_eq!(DecimalSize::new(1024 + 102).to_string(), "1KiB");
    assert_eq!(DecimalSize::new(495).to_string(), "495B");
}

#[test]
fn decimal_size_shows_one_decimal_place_from_a_tenth_on() {
    assert_eq!(DecimalSize::new(1100).to_string_si(), "1.1KB");
    assert_eq!(DecimalSize::new(1500).to_string_si(), "1.5KB");
    assert_eq!(DecimalSize::new(1536).to_string(), "1.5KiB");
    assert_eq!(DecimalSize::new(1024 + 103).to_string(), "1.1KiB");
    assert_eq!(DecimalSize::new(1940).to_string_si(), "1.9KB");
    assert_eq!(DecimalSize::new(2_560_000).to_string_si(), "2.6MB");
}

#[test]
fn decimal_size_rounds_to_the_nearest_tenth_and_ties_to_even() {
    assert_eq!(DecimalSize::new(1149).to_string_si(), "1.1KB");
    assert_eq!(DecimalSize::new(1151).to_string_si(), "1.2KB");
    assert_eq!(DecimalSize::new(1250).to_string_si(), "1.2KB");
    assert_eq!(DecimalSize::new(1350).to_string_si(), "1.4KB");
    assert_eq!(DecimalSize::new(1450).to_string_si(), "1.4KB");
    assert_eq!(DecimalSize::new(1280).to_string(), "1.2KiB");
    assert_eq!(DecimalSize::new(1792).to_string(), "1.8KiB");
}

#[test]
fn decimal_size_carries_into_the_whole_part() {
    assert_eq!(DecimalSize::new(1960).to_string_si(), "2.0KB");
    assert_eq!(DecimalSize::new(9999).to_string_si(), "10.0KB");
    assert_eq!(DecimalSize::new(999_999).to_string_si(), "1000.0KB");
}

#[test]
fn long_size_parts_add_up_to_the_count() {
    for (table, bytes) in [
        (units(), 3 * PIB + 2 * GIB + 3 * B),
        (units(), u64::MAX),
        (units(), 1),
        (units(), KIB),
        (units_si(), 3 * PB + 2 * GB + 3 * B),
        (units_si(), u64::MAX),
        (units_si(), 1_000_999),
    ] {
        let parts = LongSize::new(bytes).decompose(&table);
        let total: u64 = parts.iter().map(|part| part.count * table[part.unit].size).sum();
        assert_eq!(total, bytes);
    }
}

#[test]
fn long_size_parts_descend_and_are_never_zero() {
    let table = units();
    let parts = LongSize::new(3 * PIB + 2 * GIB + 3 * B).decompose(&table);
    let listed: Vec<(u64, usize)> = parts.iter().map(|part| (part.count, part.unit)).collect();
    assert_eq!(listed, vec![(3, 5), (2, 3), (3, 0)]);
    let parts = LongSize::new(u64::MAX).decompose(&table);
    for pair in parts.windows(2) {
        assert!(table[pair[0].unit].size > table[pair[1].unit].size);
    }
    for part in &parts {
        assert!(part.count > 0);
    }
    assert!(LongSize::new(0).decompose(&table).is_empty());
}

#[test]
fn long_size_in_decimal_units() {
    assert_eq!(LongSize::new(3 * PB + 2 * GB + 3 * B).to_string_si(), "3PB 2GB 3B");
    assert_eq!(LongSize::new(1024).to_string_si(), "1KB 24B");
    assert_eq!(LongSize::new(1024).to_string(), "1KiB");
    assert_eq!(LongSize::new(u64::MAX).to_string(), "16383PiB 1023TiB 1023GiB 1023MiB 1023KiB 1023B");
}

#[test]
fn conversions_keep_the_byte_count() {
    assert_eq!(Size::from(5u64).0, 5);
    assert_eq!(LongSize::from(Size::new(6)).0, 6);
    assert_eq!(DecimalSize::from(LongSize::new(7)).0, 7);
    assert_eq!(Size::from(DecimalSize::new(8)).0, 8);
    assert_eq!(LongSize::from(9u64).0, 9);
    assert_eq!(DecimalSize::from(10u64).0, 10);
    assert_eq!(Size::from(LongSize::new(11)).0, 11);
    assert_eq!(LongSize::from(DecimalSize::new(12)).0, 12);
    assert_eq!(DecimalSize::from(Size::new(13)).0, 13);
    assert_eq!(Size::new(14).into_exact().0, 14);
    assert_eq!(15u64.into_size().0, 15);
    assert_eq!(16u64.into_longsize().0, 16);
    assert_eq!(17u64.into_decimalsize().0, 17);
    let unit = lsr::size::ByteUnit::from((1024, "KiB"));
    assert_eq!((unit.size, unit.name), (1024, "KiB"));
    let unit = lsr::size::ByteUnit::from_tuple((1000, "KB"));
    assert_eq!((unit.size, unit.name), (1000, "KB"));
    let unit = lsr::size::ByteUnit::new(1, "B");
    assert_eq!((unit.size, unit.name), (1, "B"));
}

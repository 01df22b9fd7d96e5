use csv_to_sqlite::cells::{classify, CellClass};
use csv_to_sqlite::infer::{column_types, infer_column_type, infer_type};
use csv_to_sqlite::types::ColumnType;

fn cells(xs: &[&str]) -> Vec<String> {
    xs.iter().map(|s| s.to_string()).collect()
}

#[test]
fn all_integers_give_integer() {
    let vals = cells(&["1", "2", "-3", "+4"]);
    assert_eq!(infer_type(&vals), ColumnType::Integer);
    assert_eq!(infer_column_type(&vals), "INTEGER");
}

#[test]
fn integers_with_blanks_give_integer() {
    let vals = cells(&["10", "", "  ", "20", "30"]);
    assert_eq!(infer_type(&vals), ColumnType::Integer);
}

#[test]
fn exactly_four_in_five_integers_give_text() {
    let vals = cells(&["1", "2", "3", "4", "abc"]);
    assert_eq!(infer_type(&vals), ColumnType::Text);
    assert_eq!(infer_column_type(&vals), "TEXT");
}

#[test]
fn five_in_six_integers_give_integer() {
    let vals = cells(&["1", "2", "3", "4", "5", "abc"]);
    assert_eq!(infer_type(&vals), ColumnType::Integer);
}

#[test]
fn all_blank_gives_text() {
    let vals = cells(&["", "   ", "\t\n"]);
    assert_eq!(infer_type(&vals), ColumnType::Text);
    assert_eq!(infer_column_type(&vals), "TEXT");
}

#[test]
fn no_values_give_text() {
    let vals: Vec<String> = Vec::new();
    assert_eq!(infer_type(&vals), ColumnType::Text);
}

#[test]
fn floats_with_blank_give_real() {
    let vals = cells(&["9.5", "", "7.0"]);
    assert_eq!(infer_type(&vals), ColumnType::Real);
    assert_eq!(infer_column_type(&vals), "REAL");
}

#[test]
fn integers_and_floats_together_give_real() {
    let vals = cells(&["1", "2", "3", "4.5"]);
    assert_eq!(infer_type(&vals), ColumnType::Real);
}

#[test]
fn exactly_four_in_five_floats_give_text() {
    let vals = cells(&["1.5", "2.5", "3.5", "4.5", "abc"]);
    assert_eq!(infer_type(&vals), ColumnType::Text);
}

#[test]
fn float_forms_give_real() {
    let vals = cells(&["1.", ".5", "3e4", "1.25E-3", "+2.5", "-0.5"]);
    assert_eq!(infer_type(&vals), ColumnType::Real);
}

#[test]
fn special_float_words_give_real() {
    let vals = cells(&["inf", "NaN", "Infinity", "-INF"]);
    assert_eq!(infer_type(&vals), ColumnType::Real);
}

#[test]
fn out_of_range_integer_counts_as_float() {
    // one past i64::MAX: no integer literal, but a valid float literal
    let vals = cells(&["9223372036854775808"]);
    assert_eq!(infer_type(&vals), ColumnType::Real);
}

#[test]
fn extreme_in_range_integers_give_integer() {
    let vals = cells(&["-9223372036854775808", "9223372036854775807"]);
    assert_eq!(infer_type(&vals), ColumnType::Integer);
}

#[test]
fn padded_numbers_are_text() {
    // the numeric grammars take no surrounding whitespace
    let vals = cells(&[" 1", "2 "]);
    assert_eq!(infer_type(&vals), ColumnType::Text);
}

#[test]
fn mostly_text_gives_text() {
    let vals = cells(&["a", "b", "c", "1"]);
    assert_eq!(infer_type(&vals), ColumnType::Text);
}

#[test]
fn classify_tells_the_tiers_apart() {
    assert_eq!(classify(""), CellClass::Blank);
    assert_eq!(classify(" \t"), CellClass::Blank);
    assert_eq!(classify("12"), CellClass::IntLit);
    assert_eq!(classify("-7"), CellClass::IntLit);
    assert_eq!(classify("12.5"), CellClass::FloatLit);
    assert_eq!(classify("12"), CellClass::IntLit); // an integer is never a float
    assert_eq!(classify("12x"), CellClass::Other);
    assert_eq!(classify("1.2.3"), CellClass::Other);
    assert_eq!(classify("."), CellClass::Other);
    assert_eq!(classify("e5"), CellClass::Other);
    assert_eq!(classify("1e"), CellClass::Other);
    assert_eq!(classify("1E5"), CellClass::FloatLit);
    assert_eq!(classify("1e+5"), CellClass::FloatLit);
    assert_eq!(classify("1.e5"), CellClass::FloatLit);
    assert_eq!(classify("+.5"), CellClass::FloatLit);
    assert_eq!(classify("1e-"), CellClass::Other);
    assert_eq!(classify("--5"), CellClass::Other);
    assert_eq!(classify("+ 5"), CellClass::Other);
    assert_eq!(classify("Inf"), CellClass::FloatLit);
    assert_eq!(classify("infinit"), CellClass::Other);
}

#[test]
fn column_types_follow_each_column() {
    let records: Vec<Vec<String>> = vec![
        cells(&["1", "Alice", "9.5"]),
        cells(&["2", "Bob", ""]),
        cells(&["3", "Carol", "7.0"]),
    ];
    let types = column_types(3, &records, true);
    assert_eq!(
        types,
        vec![ColumnType::Integer, ColumnType::Text, ColumnType::Real]
    );
}

#[test]
fn column_types_without_inference_are_text() {
    let records: Vec<Vec<String>> = vec![cells(&["1", "Alice", "9.5"])];
    let types = column_types(3, &records, false);
    assert_eq!(
        types,
        vec![ColumnType::Text, ColumnType::Text, ColumnType::Text]
    );
}

#[test]
fn short_rows_contribute_nothing_to_later_columns() {
    let records: Vec<Vec<String>> = vec![cells(&["1", "x"]), cells(&["2"]), cells(&["3", "y"])];
    let types = column_types(2, &records, true);
    assert_eq!(types, vec![ColumnType::Integer, ColumnType::Text]);
}

//! The verified helpers: numerals, parsing, command decisions,
//! configuration merging, and table rendering.

use toado::commands::{
    create_id_pairs, create_name_pairs, list_footer, nullable_into_update_action, parse_list_args,
    parse_search_terms, search_condition, validate_name,
};
use toado::config::{Config, ConfigData, ListData, TableCharsData, TableConfig, TableData};
use toado::flags::{AssignArgs, ListArgs, NullableString, UpdateArgs};
use toado::parse::{parse_i64, parse_u64};
use toado::table::AsciiTable;
use toado::text::{i64_text, join_strings, quote_string, repeat_string, u64_text, usize_text};
use toado::{ItemStatus, OrderBy, OrderDir, QueryCols, QueryConditions, RowLimit, SqlValue, UpdateAction};

#[test]
fn decimal_numerals_render_exactly() {
    assert_eq!(u64_text(0), "0");
    assert_eq!(u64_text(10), "10");
    assert_eq!(u64_text(90321), "90321");
    assert_eq!(u64_text(u64::MAX), "18446744073709551615");
    assert_eq!(i64_text(0), "0");
    assert_eq!(i64_text(-1), "-1");
    assert_eq!(i64_text(i64::MIN), "-9223372036854775808");
    assert_eq!(i64_text(i64::MAX), "9223372036854775807");
    assert_eq!(usize_text(42), "42");
}

#[test]
fn quoting_wraps_without_escaping() {
    assert_eq!(quote_string("Buy milk"), "'Buy milk'");
    assert_eq!(quote_string(""), "''");
}

#[test]
fn joining_uses_the_separator_between_entries() {
    assert_eq!(join_strings(&vec![], ", "), "");
    assert_eq!(join_strings(&vec!["a".to_string()], ", "), "a");
    assert_eq!(
        join_strings(&vec!["a".to_string(), "b".to_string(), "c".to_string()], ", "),
        "a, b, c"
    );
    assert_eq!(repeat_string("ab", 3), "ababab");
    assert_eq!(repeat_string("x", 0), "");
}

#[test]
fn parsing_accepts_exactly_fitting_digit_strings() {
    assert_eq!(parse_u64("0"), Some(0));
    assert_eq!(parse_u64("123"), Some(123));
    assert_eq!(parse_u64("18446744073709551615"), Some(u64::MAX));
    assert_eq!(parse_u64("18446744073709551616"), None);
    assert_eq!(parse_u64(""), None);
    assert_eq!(parse_u64("12a"), None);
    assert_eq!(parse_u64("-3"), None);
    assert_eq!(parse_u64(" 3"), None);
}

#[test]
fn signed_parsing_reads_an_optional_leading_minus() {
    assert_eq!(parse_i64("0"), Some(0));
    assert_eq!(parse_i64("-0"), Some(0));
    assert_eq!(parse_i64("-3"), Some(-3));
    assert_eq!(parse_i64("9223372036854775807"), Some(i64::MAX));
    assert_eq!(parse_i64("9223372036854775808"), None);
    assert_eq!(parse_i64("-9223372036854775808"), Some(i64::MIN));
    assert_eq!(parse_i64("-9223372036854775809"), None);
    assert_eq!(parse_i64("-"), None);
    assert_eq!(parse_i64(""), None);
    assert_eq!(parse_i64("--3"), None);
    assert_eq!(parse_i64("3-"), None);
}

#[test]
fn counts_clamp_to_the_machine_range() {
    assert_eq!(toado::server::clamp_count(-5), 0);
    assert_eq!(toado::server::clamp_count(0), 0);
    assert_eq!(toado::server::clamp_count(7), 7);
    assert_eq!(toado::server::clamp_count(i64::MAX), i64::MAX as usize);
}

#[test]
fn status_codes_round_trip_and_unknown_codes_fall_back() {
    assert_eq!(ItemStatus::Incomplete.code(), 0);
    assert_eq!(ItemStatus::Complete.code(), 1);
    assert_eq!(ItemStatus::Archived.code(), 2);
    assert_eq!(ItemStatus::from_code(0), ItemStatus::Incomplete);
    assert_eq!(ItemStatus::from_code(1), ItemStatus::Complete);
    assert_eq!(ItemStatus::from_code(2), ItemStatus::Archived);
    assert_eq!(ItemStatus::from_code(5), ItemStatus::Archived);
    assert_eq!(ItemStatus::from_code(-1), ItemStatus::Archived);
    assert_eq!(ItemStatus::Complete.name(), "complete");
}

#[test]
fn numeric_terms_search_by_id_and_text_terms_by_name() {
    match search_condition("17") {
        QueryConditions::Equal { col, value } => {
            assert_eq!(col, "id");
            assert!(matches!(value, SqlValue::Int(17)));
        }
        _ => panic!("a numeric term should search by id"),
    }
    match search_condition("milk") {
        QueryConditions::Like { col, value } => {
            assert_eq!(col, "name");
            match value {
                SqlValue::Text(t) => assert_eq!(t, "%milk%"),
                _ => panic!("a name pattern should be text"),
            }
        }
        _ => panic!("a textual term should search by name"),
    }
    assert_eq!(search_condition("42").to_text(), "id = 42");
    assert_eq!(search_condition("-3").to_text(), "id = -3");
    assert_eq!(search_condition("milk").to_text(), "name LIKE '%milk%'");
    assert_eq!(search_condition("3 bears").to_text(), "name LIKE '%3 bears%'");
}

#[test]
fn names_starting_with_a_digit_are_rejected() {
    assert!(validate_name("Buy milk").is_ok());
    assert!(validate_name("").is_ok());
    assert_eq!(
        validate_name("7 things"),
        Err("Name cannot start with or be a number".to_string())
    );
    assert!(validate_name("42").is_err());
}

#[test]
fn assign_search_terms_prefer_positional_values() {
    let args = AssignArgs {
        task: Some("one".to_string()),
        task_term: Some("two".to_string()),
        project: None,
        project_term: Some("three".to_string()),
        unassign: false,
        no_select: false,
    };
    let (task_term, project_term) = parse_search_terms(&args);
    assert_eq!(task_term.as_deref(), Some("one"));
    assert_eq!(project_term.as_deref(), Some("three"));
}

#[test]
fn list_args_resolve_projection_ordering_and_limit() {
    let args = ListArgs {
        order_by: Some(OrderBy::Id),
        task: true,
        project: false,
        verbose: false,
        asc: false,
        desc: true,
        limit: Some(7),
        offset: Some(3),
        full: false,
    };
    let (cols, order_by, order_dir, limit, offset) = parse_list_args(&args);
    match cols {
        QueryCols::Named(names) => assert_eq!(names, vec!["id", "name", "priority", "status"]),
        _ => panic!("a task listing projects the task columns"),
    }
    assert!(matches!(order_by, Some(OrderBy::Id)));
    assert!(matches!(order_dir, Some(OrderDir::Desc)));
    assert!(matches!(limit, Some(RowLimit::Limit(7))));
    assert_eq!(offset, Some(3));

    let full_args = ListArgs {
        order_by: None,
        task: false,
        project: true,
        verbose: false,
        asc: false,
        desc: false,
        limit: None,
        offset: None,
        full: true,
    };
    let (cols, _, order_dir, limit, _) = parse_list_args(&full_args);
    match cols {
        QueryCols::Named(names) => assert_eq!(names, vec!["id", "name", "start_time", "end_time"]),
        _ => panic!("a project listing projects the project columns"),
    }
    assert!(order_dir.is_none());
    assert!(matches!(limit, Some(RowLimit::All)));
}

#[test]
fn list_footer_shows_the_window_and_total() {
    assert_eq!(list_footer(None, 10, 25), "\n0-10 of 25");
    assert_eq!(list_footer(Some(5), 10, 25), "\n5-15 of 25");
}

#[test]
fn nullable_strings_map_to_the_three_actions() {
    assert!(matches!(
        nullable_into_update_action(Some(NullableString::Text("x".to_string()))),
        UpdateAction::Value(v) if v == "x"
    ));
    assert!(matches!(
        nullable_into_update_action(Some(NullableString::Null)),
        UpdateAction::Null
    ));
    assert!(matches!(
        nullable_into_update_action(None),
        UpdateAction::Untouched
    ));
}

#[test]
fn update_args_detect_present_values() {
    let empty = UpdateArgs {
        term: None,
        task: false,
        project: false,
        name: None,
        item_priority: None,
        start_time: None,
        end_time: None,
        notes: None,
        repeat: None,
    };
    assert!(!empty.has_task_update_values());
    assert!(!empty.has_project_update_values());
    let with_repeat = UpdateArgs { repeat: Some(NullableString::Null), ..empty };
    assert!(with_repeat.has_task_update_values());
    assert!(!with_repeat.has_project_update_values());
}

#[test]
fn id_pairs_cross_every_task_with_every_project() {
    let pairs = create_id_pairs(vec![1, 2], vec![10, 20, 30]);
    assert_eq!(pairs, vec![(1, 10), (1, 20), (1, 30), (2, 10), (2, 20), (2, 30)]);
    assert!(create_id_pairs(vec![], vec![1]).is_empty());
    let names = create_name_pairs(
        vec!["a".to_string(), "b".to_string()],
        vec!["x".to_string()],
    );
    assert_eq!(
        names,
        vec![("a".to_string(), "x".to_string()), ("b".to_string(), "x".to_string())]
    );
}

#[test]
fn config_merge_overrides_only_named_values() {
    let defaults = Config::from_data(ConfigData { table: None, list: None });
    assert!(defaults.table.seperate_cols);
    assert!(!defaults.table.seperate_rows);
    assert_eq!(defaults.table.vertical, '│');
    assert!(!defaults.list.default_verbose);

    let merged = Config::from_data(ConfigData {
        table: Some(TableData {
            seperate_columns: Some(false),
            seperate_rows: None,
            characters: Some(TableCharsData {
                horizontal: Some('-'),
                vertical: Some('|'),
                up_horizontal: None,
                down_horizontal: None,
                vertical_right: None,
                vertical_left: None,
                vertical_horizontal: Some('+'),
                down_right: None,
                down_left: None,
                up_right: None,
                up_left: None,
            }),
        }),
        list: Some(ListData { default_verbose: Some(true) }),
    });
    assert!(!merged.table.seperate_cols);
    assert!(!merged.table.seperate_rows);
    assert_eq!(merged.table.horizontal, '-');
    assert_eq!(merged.table.vertical, '|');
    assert_eq!(merged.table.vertical_horizontal, '+');
    assert_eq!(merged.table.up_horizontal, '┴');
    assert!(merged.list.default_verbose);
}

#[test]
fn table_renders_padded_cells_with_separators() {
    let mut config = TableConfig::default();
    config.vertical = '|';
    config.horizontal = '-';
    config.vertical_horizontal = '+';
    let rows = vec![
        vec!["1".to_string(), "Buy milk".to_string()],
        vec!["20".to_string(), "Nap".to_string()],
    ];
    let table = AsciiTable::new(rows.clone(), &config);
    assert_eq!(table.render(), "1  | Buy milk \n20 | Nap      ");

    let plain = AsciiTable::new(rows.clone(), &config).seperate_cols(false);
    assert_eq!(plain.render(), "1   Buy milk \n20  Nap      ");

    let lined = AsciiTable::new(rows, &config).seperate_rows(true);
    assert_eq!(lined.render(), "1  | Buy milk \n---+----------\n20 | Nap      ");
}

#[test]
fn shorter_rows_simply_have_fewer_cells() {
    let mut config = TableConfig::default();
    config.vertical = '|';
    let rows = vec![
        vec!["ab".to_string(), "x".to_string()],
        vec!["c".to_string()],
    ];
    let table = AsciiTable::new(rows, &config);
    assert_eq!(table.render(), "ab | x 
c  ");
}

#[test]
fn empty_table_renders_empty_text() {
    let config = TableConfig::default();
    let table = AsciiTable::new(Vec::new(), &config);
    assert_eq!(table.render(), "");
}

//! Application configuration: display defaults, and the merge of a
//! loaded configuration file's optional overrides onto them. Reading and
//! decoding the file itself belongs to the outer layer, which hands in
//! the plain optional values.

use vstd::prelude::*;

verus! {

/// Application config.
pub struct Config {
    pub table: TableConfig,
    pub list: ListConfig,
}

/// Application table config.
#[derive(Clone, Copy, PartialEq, Eq, Structural, Debug)]
pub struct TableConfig {
    pub seperate_cols: bool,
    pub seperate_rows: bool,
    pub horizontal: char,
    pub vertical: char,
    pub up_horizontal: char,
    pub down_horizontal: char,
    pub vertical_right: char,
    pub vertical_left: char,
    pub vertical_horizontal: char,
    pub down_right: char,
    pub down_left: char,
    pub up_right: char,
    pub up_left: char,
}

/// The table configuration used when no override is given: columns
/// separated, rows not, drawn with the box-drawing characters.
pub open spec fn default_table_config() -> TableConfig {
    TableConfig {
        seperate_cols: true,
        seperate_rows: false,
        horizontal: '─',
        up_horizontal: '┴',
        down_horizontal: '┬',
        vertical: '│',
        vertical_right: '├',
        vertical_left: '┤',
        down_right: '┌',
        down_left: '┐',
        up_right: '└',
        up_left: '┘',
        vertical_horizontal: '┼',
    }
}

impl TableConfig {
    /// Create a default table config struct.
    pub fn default() -> (r: Self)
        ensures
            r == default_table_config(),
    {
        TableConfig {
            seperate_cols: true,
            seperate_rows: false,
            horizontal: '─',
            up_horizontal: '┴',
            down_horizontal: '┬',
            vertical: '│',
            vertical_right: '├',
            vertical_left: '┤',
            down_right: '┌',
            down_left: '┐',
            up_right: '└',
            up_left: '┘',
            vertical_horizontal: '┼',
        }
    }
}

/// List command config.
#[derive(Clone, Copy, PartialEq, Eq, Structural, Debug)]
pub struct ListConfig {
    pub default_verbose: bool,
}

impl ListConfig {
    /// The list configuration used when no override is given.
    pub fn default() -> (r: Self)
        ensures
            r.default_verbose == false,
    {
        Self { default_verbose: false }
    }
}

/// Optional overrides for the table's drawing characters, as read from a
/// configuration file.
pub struct TableCharsData {
    pub horizontal: Option<char>,
    pub vertical: Option<char>,
    pub up_horizontal: Option<char>,
    pub down_horizontal: Option<char>,
    pub vertical_right: Option<char>,
    pub vertical_left: Option<char>,
    pub vertical_horizontal: Option<char>,
    pub down_right: Option<char>,
    pub down_left: Option<char>,
    pub up_right: Option<char>,
    pub up_left: Option<char>,
}

/// Optional overrides for the table configuration.
pub struct TableData {
    pub seperate_columns: Option<bool>,
    pub seperate_rows: Option<bool>,
    pub characters: Option<TableCharsData>,
}

/// Optional overrides for the list configuration.
pub struct ListData {
    pub default_verbose: Option<bool>,
}

/// The optional overrides a configuration file carries.
pub struct ConfigData {
    pub table: Option<TableData>,
    pub list: Option<ListData>,
}

/// An optional override applied onto a default.
pub open spec fn spec_or_default<T>(o: Option<T>, d: T) -> T {
    match o {
        Option::Some(v) => v,
        Option::None => d,
    }
}

/// An optional override applied onto a default.
pub fn or_default<T>(o: Option<T>, d: T) -> (r: T)
    ensures
        r == spec_or_default(o, d),
{
    match o {
        Option::Some(v) => v,
        Option::None => d,
    }
}

/// The table configuration the overrides merge to.
pub open spec fn merged_table_config(data: Option<TableData>) -> TableConfig {
    let d = default_table_config();
    match data {
        Option::None => d,
        Option::Some(t) => {
            let chars = t.characters;
            TableConfig {
                seperate_cols: spec_or_default(t.seperate_columns, d.seperate_cols),
                seperate_rows: spec_or_default(t.seperate_rows, d.seperate_rows),
                horizontal: spec_or_default(
                    match chars {
                        Option::Some(c) => c.horizontal,
                        Option::None => Option::None,
                    },
                    d.horizontal,
                ),
                vertical: spec_or_default(
                    match chars {
                        Option::Some(c) => c.vertical,
                        Option::None => Option::None,
                    },
                    d.vertical,
                ),
                up_horizontal: spec_or_default(
                    match chars {
                        Option::Some(c) => c.up_horizontal,
                        Option::None => Option::None,
                    },
                    d.up_horizontal,
                ),
                down_horizontal: spec_or_default(
                    match chars {
                        Option::Some(c) => c.down_horizontal,
                        Option::None => Option::None,
                    },
                    d.down_horizontal,
                ),
                vertical_right: spec_or_default(
                    match chars {
                        Option::Some(c) => c.vertical_right,
                        Option::None => Option::None,
                    },
                    d.vertical_right,
                ),
                vertical_left: spec_or_default(
                    match chars {
                        Option::Some(c) => c.vertical_left,
                        Option::None => Option::None,
                    },
                    d.vertical_left,
                ),
                vertical_horizontal: spec_or_default(
                    match chars {
                        Option::Some(c) => c.vertical_horizontal,
                        Option::None => Option::None,
                    },
                    d.vertical_horizontal,
                ),
                down_right: spec_or_default(
                    match chars {
                        Option::Some(c) => c.down_right,
                        Option::None => Option::None,
                    },
                    d.down_right,
                ),
                down_left: spec_or_default(
                    match chars {
                        Option::Some(c) => c.down_left,
                        Option::None => Option::None,
                    },
                    d.down_left,
                ),
                up_right: spec_or_default(
                    match chars {
                        Option::Some(c) => c.up_right,
                        Option::None => Option::None,
                    },
                    d.up_right,
                ),
                up_left: spec_or_default(
                    match chars {
                        Option::Some(c) => c.up_left,
                        Option::None => Option::None,
                    },
                    d.up_left,
                ),
            }
        }
    }
}

/// The list configuration the overrides merge to.
pub open spec fn merged_list_config(data: Option<ListData>) -> ListConfig {
    match data {
        Option::None => ListConfig { default_verbose: false },
        Option::Some(l) => ListConfig {
            default_verbose: spec_or_default(l.default_verbose, false),
        },
    }
}

impl Config {
    /// Merges a file's optional overrides onto the defaults: every value
    /// the file names replaces its default, every other keeps it.
    pub fn from_data(data: ConfigData) -> (r: Config)
        ensures
            r.table == merged_table_config(data.table),
            r.list == merged_list_config(data.list),
    {
        let mut table = TableConfig::default();
        match data.table {
            Option::Some(table_data) => {
                table.seperate_cols = or_default(table_data.seperate_columns, table.seperate_cols);
                table.seperate_rows = or_default(table_data.seperate_rows, table.seperate_rows);
                match table_data.characters {
                    Option::Some(chars) => {
                        table.horizontal = or_default(chars.horizontal, table.horizontal);
                        table.vertical = or_default(chars.vertical, table.vertical);
                        table.up_horizontal = or_default(chars.up_horizontal, table.up_horizontal);
                        table.down_horizontal = or_default(
                            chars.down_horizontal,
                            table.down_horizontal,
                        );
                        table.vertical_right = or_default(
                            chars.vertical_right,
                            table.vertical_right,
                        );
                        table.vertical_left = or_default(chars.vertical_left, table.vertical_left);
                        table.vertical_horizontal = or_default(
                            chars.vertical_horizontal,
                            table.vertical_horizontal,
                        );
                        table.down_right = or_default(chars.down_right, table.down_right);
                        table.down_left = or_default(chars.down_left, table.down_left);
                        table.up_right = or_default(chars.up_right, table.up_right);
                        table.up_left = or_default(chars.up_left, table.up_left);
                    }
                    Option::None => {}
                }
            }
            Option::None => {}
        }
        let mut list = ListConfig::default();
        match data.list {
            Option::Some(list_data) => {
                list.default_verbose = or_default(list_data.default_verbose, list.default_verbose);
            }
            Option::None => {}
        }
        Config { table, list }
    }
}

} // verus!

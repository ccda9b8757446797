//! Display configuration for table views: plain flags that the interface
//! layer reads when it paints a table.
use vstd::prelude::*;

verus! {

/// The display options of one table view, assembled by chained builders.
#[derive(Debug, Copy, Clone, PartialEq, Eq, Structural, Hash)]
pub struct TableConfig {
    /// Whether searches distinguish case.
    pub case_sensitive: bool,
    /// Whether rows carry a check box.
    pub checked: bool,
    /// Whether columns may be resized.
    pub resizable: bool,
    /// Whether the view offers a search box.
    pub search: bool,
    /// Whether the view offers a row slider.
    pub slider: bool,
    /// Whether rows are striped.
    pub striped: bool,
}

impl TableConfig {
    /// Creates a configuration with every option off.
    pub fn new() -> (r: TableConfig)
        ensures
            r == (TableConfig {
                case_sensitive: false,
                checked: false,
                resizable: false,
                search: false,
                slider: false,
                striped: false,
            }),
    {
        TableConfig {
            case_sensitive: false,
            checked: false,
            resizable: false,
            search: false,
            slider: false,
            striped: false,
        }
    }

    /// Turns row check boxes on.
    pub fn checked(self) -> (r: TableConfig)
        ensures
            r == (TableConfig { checked: true, ..self }),
    {
        TableConfig { checked: true, ..self }
    }

    /// Turns column resizing on.
    pub fn resizable(self) -> (r: TableConfig)
        ensures
            r == (TableConfig { resizable: true, ..self }),
    {
        TableConfig { resizable: true, ..self }
    }

    /// Turns the search box on.
    pub fn with_search(self) -> (r: TableConfig)
        ensures
            r == (TableConfig { search: true, ..self }),
    {
        TableConfig { search: true, ..self }
    }

    /// Turns the row slider on.
    pub fn with_slider(self) -> (r: TableConfig)
        ensures
            r == (TableConfig { slider: true, ..self }),
    {
        TableConfig { slider: true, ..self }
    }

    /// Turns row striping on.
    pub fn striped(self) -> (r: TableConfig)
        ensures
            r == (TableConfig { striped: true, ..self }),
    {
        TableConfig { striped: true, ..self }
    }

    /// Makes searches case-sensitive.
    pub fn case_sensitive(self) -> (r: TableConfig)
        ensures
            r == (TableConfig { case_sensitive: true, ..self }),
    {
        TableConfig { case_sensitive: true, ..self }
    }
}

impl Default for TableConfig {
    fn default() -> (r: TableConfig)
        ensures
            r == TableConfig::new_spec(),
    {
        TableConfig::new()
    }
}

impl TableConfig {
    /// The configuration with every option off.
    pub open spec fn new_spec() -> TableConfig {
        TableConfig {
            case_sensitive: false,
            checked: false,
            resizable: false,
            search: false,
            slider: false,
            striped: false,
        }
    }
}

/// The options of one search pass over a table.
#[derive(Debug, Default, Copy, Clone, PartialEq, Eq, Structural)]
pub struct SearchConfig {
    /// Whether the search distinguishes case.
    pub case_sensitive: bool,
}

} // verus!

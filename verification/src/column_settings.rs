//! Which columns the table of messages shows for a topic.

use vstd::prelude::*;

verus! {

/// The identifier and the payload are always shown; the publish time is
/// shown on request.
#[derive(Debug, Clone, Copy, PartialEq, Eq, Structural)]
pub struct ColumnSettings {
    pub show_publish_time: bool,
}

impl Default for ColumnSettings {
    /// The publish time is shown.
    fn default() -> (settings: Self)
        ensures
            settings == (ColumnSettings { show_publish_time: true }),
    {
        Self { show_publish_time: true }
    }
}

impl ColumnSettings {
    /// The number of columns of the table.
    pub fn column_count(&self) -> (count: usize)
        ensures
            count == if self.show_publish_time {
                3usize
            } else {
                2usize
            },
    {
        let mut count: usize = 2;
        if self.show_publish_time {
            count += 1;
        }
        count
    }
}

} // verus!

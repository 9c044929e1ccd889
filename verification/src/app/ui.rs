//! What the screen needs of the browser: the widths of the columns and the rows of the
//! list on show.

use crate::app::{App, AppView};
use crate::file::{in_calendar, is_time_text, row_view, FileView};
use crate::utility::string::fits_column;
use crate::workers::fs_light_service::file_views;
use vstd::prelude::*;

verus! {

/// The least width of the name column, in characters.
pub const MIN_NAME_WIDTH: usize = 20;

/// The width of the column that holds the modification time.
pub const MODIFIED_TIME_WIDTH: usize = 20;

/// The least width of the listing on the screen.
pub const MIN_FILES_SECTION_WIDTH: u16 = 50;

/// The width of the mark that stands before each row.
pub const LIST_SYMBOL_WIDTH: usize = 2;

/// The width of the name column, with the mark before it, in a listing that is
/// `files_section_width` wide: what the time column and the mark leave, and at least
/// `MIN_NAME_WIDTH`.
pub open spec fn name_width_of(files_section_width: u16) -> usize {
    let rest = files_section_width - (MODIFIED_TIME_WIDTH + LIST_SYMBOL_WIDTH);
    if rest > MIN_NAME_WIDTH {
        rest as usize
    } else {
        MIN_NAME_WIDTH
    }
}

/// The width of the name column, with the mark before it.
pub fn max_name_width(files_section_width: u16) -> (width: usize)
    ensures
        width == name_width_of(files_section_width),
{
    let taken: usize = MODIFIED_TIME_WIDTH + LIST_SYMBOL_WIDTH;
    let full: usize = files_section_width as usize;
    if full > taken && full - taken > MIN_NAME_WIDTH {
        full - taken
    } else {
        MIN_NAME_WIDTH
    }
}

/// The fixed width of the listing on a screen of `area_width` columns, or nothing where
/// the listing takes half of the screen: it takes half as long as that is more than
/// `MIN_FILES_SECTION_WIDTH`.
pub fn files_section_width(area_width: u16) -> (width: Option<u16>)
    ensures
        width == if area_width / 2 > MIN_FILES_SECTION_WIDTH {
            None
        } else {
            Some(MIN_FILES_SECTION_WIDTH)
        },
{
    if area_width / 2 > MIN_FILES_SECTION_WIDTH {
        None
    } else {
        Some(MIN_FILES_SECTION_WIDTH)
    }
}

/// Whether `row` is what `file` shows in columns of the given widths: what
/// `FileView::fitted_line` gives for a text of the record's modification time.
pub open spec fn is_row_of(
    row: Option<String>,
    file: FileView,
    name_width: usize,
    modified_width: usize,
) -> bool {
    exists|modified: Seq<char>|
        is_time_text(modified, file.modified_time) && row_view(row) == #[trigger] file.fitted_line(
            modified,
            name_width,
            modified_width,
        )
}

impl App {
    /// The rows of the list on show, in its order, for a listing that is
    /// `files_section_width` wide: each record's name and modification time in columns.
    /// A record has a row exactly where its name can be fitted, and the time column of
    /// its row is blank where the calendar cannot hold its time.
    pub fn rows(&self, files_section_width: u16) -> (rows: Vec<Option<String>>)
        requires
            self.wf(),
        ensures
            rows@.len() == self@.visible().len(),
            forall|r: int|
                0 <= r < rows@.len() ==> {
                    let file = self@.manager.files[self@.visible()[r] as int];
                    let name_width = (name_width_of(files_section_width)
                        - LIST_SYMBOL_WIDTH) as usize;
                    &&& is_row_of(#[trigger] rows@[r], file, name_width, MODIFIED_TIME_WIDTH)
                    &&& rows@[r] is Some <==> fits_column(file.name, name_width)
                    &&& !in_calendar(file.modified_time) ==> row_view(rows@[r])
                        == file.fitted_line(Seq::empty(), name_width, MODIFIED_TIME_WIDTH)
                },
    {
        let name_width: usize = max_name_width(files_section_width) - LIST_SYMBOL_WIDTH;
        let visible = self.visible_files();
        let files = self.file_manager().files();
        let mut rows: Vec<Option<String>> = Vec::new();
        let mut next: usize = 0;
        while next < visible.len()
            invariant
                self.wf(),
                visible@ == self@.visible(),
                file_views(files@) == self@.manager.files,
                next <= visible@.len(),
                rows@.len() == next,
                forall|r: int|
                    0 <= r < next ==> {
                        let file = self@.manager.files[self@.visible()[r] as int];
                        &&& is_row_of(#[trigger] rows@[r], file, name_width, MODIFIED_TIME_WIDTH)
                        &&& rows@[r] is Some <==> fits_column(file.name, name_width)
                        &&& !in_calendar(file.modified_time) ==> row_view(rows@[r])
                            == file.fitted_line(Seq::empty(), name_width, MODIFIED_TIME_WIDTH)
                    },
            decreases visible@.len() - next,
        {
            proof {
                crate::app::lemma_visible_in_range(self@, next as int);
            }
            let file = &files[visible[next]];
            let row = file.to_line(name_width, MODIFIED_TIME_WIDTH);
            assert(is_row_of(row, file@, name_width, MODIFIED_TIME_WIDTH));
            rows.push(row);
            next += 1;
        }
        rows
    }
}

} // verus!

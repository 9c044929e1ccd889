//! The records of a directory listing.

use crate::utility::string::{
    column_text,
    expand_or_truncate,
    fits,
    fits_column,
    lemma_ascii_fits,
};
use vstd::prelude::*;
use vstd::utf8::is_ascii_chars;

verus! {

/// A point in time: whole seconds since the start of 1970 in UTC, which may be negative,
/// and the nanoseconds after that second.
#[derive(Debug, Clone, Copy, PartialEq, Eq, Structural)]
pub struct Timestamp {
    pub secs: i64,
    pub nanos: u32,
}

impl Timestamp {
    /// The instant as nanoseconds since the start of 1970.
    pub open spec fn total_nanos(self) -> int {
        self.secs * 1_000_000_000 + self.nanos
    }

    /// The instant that lies `secs` seconds and `nanos` nanoseconds after the start of
    /// 1970, if its seconds can be held.
    pub fn after_epoch(secs: u64, nanos: u32) -> (time: Option<Timestamp>)
        ensures
            time is Some <==> secs <= i64::MAX,
            time matches Some(t) ==> t.secs == secs && t.nanos == nanos,
    {
        if secs <= i64::MAX as u64 {
            Some(Timestamp { secs: secs as i64, nanos })
        } else {
            None
        }
    }

    /// The instant that lies `secs` seconds and `nanos` nanoseconds before the start of
    /// 1970, if `nanos` is less than a second and the seconds can be held. Its
    /// nanoseconds count forward from the second before it.
    pub fn before_epoch(secs: u64, nanos: u32) -> (time: Option<Timestamp>)
        ensures
            time is Some <==> secs <= i64::MAX && nanos < 1_000_000_000,
            time matches Some(t) ==> t.total_nanos() == -(secs * 1_000_000_000 + nanos) && t.nanos
                < 1_000_000_000,
    {
        if secs <= i64::MAX as u64 && nanos < 1_000_000_000 {
            let whole: i64 = secs as i64;
            if nanos == 0 {
                Some(Timestamp { secs: -whole, nanos: 0 })
            } else {
                Some(Timestamp { secs: -whole - 1, nanos: 1_000_000_000 - nanos })
            }
        } else {
            None
        }
    }
}

/// What kind of thing a directory entry is.
#[derive(Debug, Clone, PartialEq, Eq)]
pub enum FileType {
    File,
    Folder,
    /// A symbolic link, with the path it holds. It is dead when following it reaches
    /// nothing; that is found out once, when the directory is listed.
    Link { target: String, is_dead: bool },
    Unknown,
}

/// A `FileType` as a plain value.
pub enum FileTypeView {
    File,
    Folder,
    Link { target: Seq<char>, is_dead: bool },
    Unknown,
}

impl FileTypeView {
    /// The kind in words.
    pub open spec fn label(self) -> Seq<char> {
        match self {
            FileTypeView::File => "File"@,
            FileTypeView::Folder => "Folder"@,
            FileTypeView::Link { is_dead, .. } => if is_dead {
                "Link (Dead)"@
            } else {
                "Link (Alive)"@
            },
            FileTypeView::Unknown => "Unknown"@,
        }
    }

    /// The kind of an entry by what the file system says of it. A symbolic link is
    /// recognised first, and is dead exactly when its target was not found.
    pub open spec fn classify(
        is_symlink: bool,
        is_file: bool,
        is_dir: bool,
        link_target: Seq<char>,
        target_found: bool,
    ) -> FileTypeView {
        if is_symlink {
            FileTypeView::Link { target: link_target, is_dead: !target_found }
        } else if is_file {
            FileTypeView::File
        } else if is_dir {
            FileTypeView::Folder
        } else {
            FileTypeView::Unknown
        }
    }
}

impl View for FileType {
    type V = FileTypeView;

    open spec fn view(&self) -> FileTypeView {
        match self {
            FileType::File => FileTypeView::File,
            FileType::Folder => FileTypeView::Folder,
            FileType::Link { target, is_dead } => FileTypeView::Link {
                target: target@,
                is_dead: *is_dead,
            },
            FileType::Unknown => FileTypeView::Unknown,
        }
    }
}

impl FileType {
    /// The kind in words, as it is shown to the user.
    pub fn label(&self) -> (text: String)
        ensures
            text@ == self@.label(),
    {
        match self {
            FileType::File => String::from_str("File"),
            FileType::Folder => String::from_str("Folder"),
            FileType::Link { is_dead, .. } => {
                if *is_dead {
                    String::from_str("Link (Dead)")
                } else {
                    String::from_str("Link (Alive)")
                }
            },
            FileType::Unknown => String::from_str("Unknown"),
        }
    }

    /// The kind of an entry by what the file system says of it: whether it is a symbolic
    /// link, a regular file or a directory, and for a link the path it holds and whether
    /// following it reached anything.
    pub fn classify(
        is_symlink: bool,
        is_file: bool,
        is_dir: bool,
        link_target: String,
        target_found: bool,
    ) -> (kind: FileType)
        ensures
            kind@ == FileTypeView::classify(is_symlink, is_file, is_dir, link_target@, target_found),
    {
        if is_symlink {
            FileType::Link { target: link_target, is_dead: !target_found }
        } else if is_file {
            FileType::File
        } else if is_dir {
            FileType::Folder
        } else {
            FileType::Unknown
        }
    }
}

/// The unit in which a size is shown, with the number of bytes.
#[derive(Debug, Clone, Copy, PartialEq, Eq, Structural)]
pub enum Size {
    Bytes(u16),
    KB(u64),
    MB(u64),
    GB(u64),
}

impl Size {
    /// The number of bytes.
    pub open spec fn bytes(self) -> u64 {
        match self {
            Size::Bytes(count) => count as u64,
            Size::KB(count) => count,
            Size::MB(count) => count,
            Size::GB(count) => count,
        }
    }

    /// The unit for `size` bytes: the largest of which `size` holds at least one.
    pub open spec fn of(size: u64) -> Size {
        if size < 1024 {
            Size::Bytes(size as u16)
        } else if size < 1024 * 1024 {
            Size::KB(size)
        } else if size < 1024 * 1024 * 1024 {
            Size::MB(size)
        } else {
            Size::GB(size)
        }
    }

    /// The number of bytes.
    pub fn byte_count(&self) -> (count: u64)
        ensures
            count == self.bytes(),
    {
        match self {
            Size::Bytes(count) => *count as u64,
            Size::KB(count) => *count,
            Size::MB(count) => *count,
            Size::GB(count) => *count,
        }
    }
}

impl vstd::std_specs::convert::FromSpecImpl<u64> for Size {
    open spec fn obeys_from_spec() -> bool {
        true
    }

    open spec fn from_spec(size: u64) -> Size {
        Size::of(size)
    }
}

impl From<u64> for Size {
    fn from(size: u64) -> (unit: Size) {
        if size < 1024 {
            Size::Bytes(size as u16)
        } else if size < 1024 * 1024 {
            Size::KB(size)
        } else if size < 1024 * 1024 * 1024 {
            Size::MB(size)
        } else {
            Size::GB(size)
        }
    }
}

/// What the file system says of one directory entry, as plain values.
#[derive(Debug, Clone, PartialEq, Eq)]
pub struct EntryProbe {
    pub name: String,
    pub is_symlink: bool,
    pub is_file: bool,
    pub is_dir: bool,
    /// The path that the entry holds, where it is a symbolic link.
    pub link_target: String,
    /// Whether following the entry reached anything.
    pub target_found: bool,
    pub modified_time: Timestamp,
    pub access_time: Timestamp,
    pub creation_time: Timestamp,
    pub size: u64,
}

/// One directory entry.
#[derive(Debug, Clone, PartialEq, Eq)]
pub struct File {
    name: String,
    file_type: FileType,
    modified_time: Timestamp,
    access_time: Timestamp,
    creation_time: Timestamp,
    size: Size,
}

/// A `File` as a plain value.
pub struct FileView {
    pub name: Seq<char>,
    pub file_type: FileTypeView,
    pub modified_time: Timestamp,
    pub access_time: Timestamp,
    pub creation_time: Timestamp,
    pub size: Size,
}

impl FileView {
    /// The record that stands for a probed entry.
    pub open spec fn of_probe(probe: EntryProbe) -> FileView {
        FileView {
            name: probe.name@,
            file_type: FileTypeView::classify(
                probe.is_symlink,
                probe.is_file,
                probe.is_dir,
                probe.link_target@,
                probe.target_found,
            ),
            modified_time: probe.modified_time,
            access_time: probe.access_time,
            creation_time: probe.creation_time,
            size: Size::of(probe.size),
        }
    }

    /// The row of this entry in a listing, given the text of its modification time: the
    /// name and the time, each in its column.
    pub open spec fn line(self, modified: Seq<char>, name_width: usize, modified_width: usize) -> Seq<
        char,
    > {
        column_text(self.name, name_width) + column_text(modified, modified_width)
    }

    /// The row of this entry, given the text of its modification time, or nothing where
    /// the name or the time cannot be fitted into its column.
    pub open spec fn fitted_line(
        self,
        modified: Seq<char>,
        name_width: usize,
        modified_width: usize,
    ) -> Option<Seq<char>> {
        if fits_column(self.name, name_width) && fits_column(modified, modified_width) {
            Some(self.line(modified, name_width, modified_width))
        } else {
            None
        }
    }
}

/// A row, or the lack of one, as a plain value.
pub open spec fn row_view(row: Option<String>) -> Option<Seq<char>> {
    match row {
        Some(text) => Some(text@),
        None => None,
    }
}

impl View for File {
    type V = FileView;

    closed spec fn view(&self) -> FileView {
        FileView {
            name: self.name@,
            file_type: self.file_type@,
            modified_time: self.modified_time,
            access_time: self.access_time,
            creation_time: self.creation_time,
            size: self.size,
        }
    }
}

/// The date and time of an instant in the machine's own time zone, as year, month, day,
/// hour, minute and second.
///
/// Calls `chrono::DateTime::from_timestamp`, then `with_timezone` with `chrono::Local`
/// and `format`. The first gives an instant exactly where `in_calendar` holds: its day
/// lies in the years that chrono's dates span, and its nanoseconds are below a second, or
/// below two in the last second of a minute. Which text the instant gets depends on the
/// time zone that the machine is set to. Whatever that is, the format writes the year in
/// at least four characters, then month, day, hour, minute and second in two digits
/// each with the five marks between them, as chrono documents for each of its six
/// fields; and it writes only digits, a sign and those marks, all of them ASCII.
#[verifier::external_body]
fn local_time_text(secs: i64, nanos: u32) -> (text: Option<String>)
    ensures
        text is Some <==> in_calendar(Timestamp { secs, nanos }),
        text matches Some(shown) ==> is_date_and_time(shown@),
{
    match chrono::DateTime::from_timestamp(secs, nanos) {
        Some(utc) => Some(utc.with_timezone(&chrono::Local).format("%Y-%m-%d %H:%M:%S").to_string()),
        None => None,
    }
}

/// The text of an instant in the machine's own time zone, empty where the calendar
/// cannot hold the instant.
fn time_text(time: &Timestamp) -> (text: String)
    ensures
        is_time_text(text@, *time),
{
    match local_time_text(time.secs, time.nanos) {
        Some(text) => text,
        None => String::new(),
    }
}

impl File {
    /// A record with the given name, kind, times and size in bytes.
    pub fn new(
        name: String,
        file_type: FileType,
        modified_time: Timestamp,
        access_time: Timestamp,
        creation_time: Timestamp,
        size: u64,
    ) -> (file: File)
        ensures
            file@ == (FileView {
                name: name@,
                file_type: file_type@,
                modified_time,
                access_time,
                creation_time,
                size: Size::of(size),
            }),
    {
        File { name, file_type, modified_time, access_time, creation_time, size: Size::from(size) }
    }

    /// The record for a probed entry: its name, its kind as `FileType::classify` finds it,
    /// its times and its size.
    pub fn from_probe(probe: &EntryProbe) -> (file: File)
        ensures
            file@ == FileView::of_probe(*probe),
    {
        let file_type = FileType::classify(
            probe.is_symlink,
            probe.is_file,
            probe.is_dir,
            probe.link_target.clone(),
            probe.target_found,
        );
        File::new(
            probe.name.clone(),
            file_type,
            probe.modified_time,
            probe.access_time,
            probe.creation_time,
            probe.size,
        )
    }

    pub fn name(&self) -> (name: &str)
        ensures
            name@ == self@.name,
    {
        self.name.as_str()
    }

    pub fn file_type(&self) -> (file_type: &FileType)
        ensures
            file_type@ == self@.file_type,
    {
        &self.file_type
    }

    pub fn modified_time(&self) -> (time: &Timestamp)
        ensures
            *time == self@.modified_time,
    {
        &self.modified_time
    }

    pub fn access_time(&self) -> (time: &Timestamp)
        ensures
            *time == self@.access_time,
    {
        &self.access_time
    }

    pub fn creation_time(&self) -> (time: &Timestamp)
        ensures
            *time == self@.creation_time,
    {
        &self.creation_time
    }

    pub fn size(&self) -> (size: &Size)
        ensures
            *size == self@.size,
    {
        &self.size
    }

    pub fn is_file(&self) -> (yes: bool)
        ensures
            yes == (self@.file_type is File),
    {
        match self.file_type {
            FileType::File => true,
            _ => false,
        }
    }

    pub fn is_folder(&self) -> (yes: bool)
        ensures
            yes == (self@.file_type is Folder),
    {
        match self.file_type {
            FileType::Folder => true,
            _ => false,
        }
    }

    pub fn is_link(&self) -> (yes: bool)
        ensures
            yes == (self@.file_type is Link),
    {
        match self.file_type {
            FileType::Link { .. } => true,
            _ => false,
        }
    }

    /// The time of the last change in the machine's own time zone; empty where the
    /// calendar cannot hold the instant.
    pub fn modified_time_to_string(&self) -> (text: String)
        ensures
            is_time_text(text@, self@.modified_time),
    {
        time_text(&self.modified_time)
    }

    /// The time of the last access in the machine's own time zone; empty where the
    /// calendar cannot hold the instant.
    pub fn access_time_to_string(&self) -> (text: String)
        ensures
            is_time_text(text@, self@.access_time),
    {
        time_text(&self.access_time)
    }

    /// The time of creation in the machine's own time zone; empty where the calendar
    /// cannot hold the instant.
    pub fn creation_time_to_string(&self) -> (text: String)
        ensures
            is_time_text(text@, self@.creation_time),
    {
        time_text(&self.creation_time)
    }

    /// The row of this entry, given the text of its modification time: the name in a
    /// column of `max_name_width` characters, then the time in one of
    /// `max_modified_width`.
    pub fn line_with(&self, modified: String, max_name_width: usize, max_modified_width: usize) -> (line:
        String)
        requires
            fits_column(self@.name, max_name_width),
            fits_column(modified@, max_modified_width),
        ensures
            line@ == self@.line(modified@, max_name_width, max_modified_width),
            line@.len() == max_name_width + max_modified_width,
    {
        let mut line = expand_or_truncate(self.name.clone(), max_name_width);
        let time = expand_or_truncate(modified, max_modified_width);
        line.append(time.as_str());
        line
    }

    /// The row of this entry, given the text of its modification time, or nothing where
    /// the name or the time cannot be fitted into its column.
    pub fn try_line_with(
        &self,
        modified: String,
        max_name_width: usize,
        max_modified_width: usize,
    ) -> (line: Option<String>)
        ensures
            row_view(line) == self@.fitted_line(modified@, max_name_width, max_modified_width),
    {
        if fits(self.name.as_str(), max_name_width) && fits(modified.as_str(), max_modified_width) {
            Some(self.line_with(modified, max_name_width, max_modified_width))
        } else {
            None
        }
    }

    /// The row of this entry with its modification time in the machine's own time zone:
    /// what `try_line_with` gives for the text of that time. So there is a row exactly
    /// where the name can be fitted, as long as the time column has four characters or
    /// more, and the time column is blank where the calendar cannot hold the time.
    pub fn to_line(&self, max_name_width: usize, max_modified_width: usize) -> (line: Option<String>)
        ensures
            exists|modified: Seq<char>|
                is_time_text(modified, self@.modified_time) && row_view(line)
                    == #[trigger] self@.fitted_line(modified, max_name_width, max_modified_width),
            !in_calendar(self@.modified_time) ==> row_view(line) == self@.fitted_line(
                Seq::empty(),
                max_name_width,
                max_modified_width,
            ),
            fits_column(self@.name, max_name_width) && max_modified_width >= 4 ==> line is Some,
            !fits_column(self@.name, max_name_width) ==> line is None,
    {
        let modified = self.modified_time_to_string();
        proof {
            if max_modified_width >= 4 {
                lemma_time_text_fits(modified@, self@.modified_time, max_modified_width);
            }
            if !in_calendar(self@.modified_time) {
                assert(modified@ =~= Seq::<char>::empty());
            }
        }
        self.try_line_with(modified, max_name_width, max_modified_width)
    }
}

/// The number of days that lie before the first day of `year`, counted from the start of
/// year 1: a year has 365 days, and one more in every fourth year but not in every
/// hundredth, yet in every four hundredth.
pub open spec fn days_before_year(year: int) -> int {
    let past = year - 1;
    365 * past + past / 4 - past / 100 + past / 400
}

/// Whether the calendar can hold the instant. Its day, counted from the start of year 1,
/// has to lie in the years from -262143 to 262142, and its nanoseconds have to be less
/// than a second, or in the last second of a minute less than two, which stands for a
/// leap second. The first day of 1970 is day 719163.
pub open spec fn in_calendar(time: Timestamp) -> bool {
    let day = time.secs / 86_400 + 719_163;
    &&& days_before_year(-262_143) < day <= days_before_year(262_143)
    &&& time.nanos < 2_000_000_000
    &&& time.nanos >= 1_000_000_000 ==> time.secs % 60 == 59
}

/// Whether `letter` is one of the ten digits.
pub open spec fn is_digit(letter: char) -> bool {
    '0' <= letter <= '9'
}

/// Whether `tail` is what follows the year in a date and a time: month, day, hour,
/// minute and second, in two digits each, with a mark before each.
pub open spec fn is_after_year(tail: Seq<char>) -> bool {
    &&& tail.len() == 15
    &&& tail[0] == '-' && is_digit(tail[1]) && is_digit(tail[2])
    &&& tail[3] == '-' && is_digit(tail[4]) && is_digit(tail[5])
    &&& tail[6] == ' ' && is_digit(tail[7]) && is_digit(tail[8])
    &&& tail[9] == ':' && is_digit(tail[10]) && is_digit(tail[11])
    &&& tail[12] == ':' && is_digit(tail[13]) && is_digit(tail[14])
}

/// Whether `text` has the form of a date and a time: a year of at least four characters,
/// then what `is_after_year` has, all of it ASCII.
pub open spec fn is_date_and_time(text: Seq<char>) -> bool {
    &&& text.len() >= 19
    &&& is_ascii_chars(text)
    &&& is_after_year(text.subrange(text.len() - 15, text.len() as int))
}

/// What holds of the text of an instant whatever the machine's time zone is: it is empty
/// exactly where the calendar cannot hold the instant, and has otherwise the form of a
/// date and a time.
pub open spec fn is_time_text(text: Seq<char>, time: Timestamp) -> bool {
    if in_calendar(time) {
        is_date_and_time(text)
    } else {
        text.len() == 0
    }
}

/// The text of an instant can be fitted into every column of four characters or more.
pub proof fn lemma_time_text_fits(text: Seq<char>, time: Timestamp, max_width: usize)
    requires
        is_time_text(text, time),
        max_width >= 4,
    ensures
        fits_column(text, max_width),
{
    if in_calendar(time) {
        lemma_ascii_fits(text, max_width);
    }
}

/// The calendar holds the instants from the first second of the year -262143 to the
/// last second of the year 262142, in seconds since the start of 1970.
pub proof fn lemma_calendar_in_seconds(time: Timestamp)
    ensures
        in_calendar(time) <==> {
            &&& -8_334_601_228_800 <= time.secs <= 8_210_266_876_799
            &&& time.nanos < 2_000_000_000
            &&& time.nanos >= 1_000_000_000 ==> time.secs % 60 == 59
        },
        days_before_year(1970) + 1 == 719_163,
{
}

/// The unit that `Size::of` picks keeps the number of bytes.
pub proof fn lemma_size_keeps_bytes(size: u64)
    ensures
        Size::of(size).bytes() == size,
        Size::of(size) is Bytes <==> size < 1024,
        Size::of(size) is KB <==> 1024 <= size < 1024 * 1024,
        Size::of(size) is MB <==> 1024 * 1024 <= size < 1024 * 1024 * 1024,
        Size::of(size) is GB <==> 1024 * 1024 * 1024 <= size,
{
}

} // verus!

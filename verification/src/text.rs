//! The texts that the processes show: a listing of files, a line of
//! progress, an address.

use crate::address::{Address, AddressView};
use crate::message::{files_view, FileInfo, FileInfoView, ProgressRequest, ProgressRequestView};
use vstd::prelude::*;
use vstd::string::*;

verus! {

/// The character of a decimal digit.
pub open spec fn digit(value: int) -> char {
    if value == 0 {
        '0'
    } else if value == 1 {
        '1'
    } else if value == 2 {
        '2'
    } else if value == 3 {
        '3'
    } else if value == 4 {
        '4'
    } else if value == 5 {
        '5'
    } else if value == 6 {
        '6'
    } else if value == 7 {
        '7'
    } else if value == 8 {
        '8'
    } else {
        '9'
    }
}

/// A number written in decimal digits, without leading zeros.
pub open spec fn decimal(number: nat) -> Seq<char>
    decreases number,
{
    if number < 10 {
        seq![digit(number as int)]
    } else {
        decimal(number / 10).push(digit((number % 10) as int))
    }
}

/// What follows the last `/` of a path: the whole path if it has none.
pub open spec fn last_segment(path: Seq<char>) -> Seq<char>
    decreases path.len(),
{
    if path.len() == 0 || path.last() == '/' {
        Seq::empty()
    } else {
        last_segment(path.drop_last()).push(path.last())
    }
}

impl AddressView {
    /// The address written as `node@process:package:publisher`.
    pub open spec fn text(self) -> Seq<char> {
        self.node + "@"@ + self.process.process_name + ":"@ + self.process.package_name + ":"@
            + self.process.publisher_node
    }
}

/// The line for one file of a listing: its name without the directories,
/// and its size.
pub open spec fn file_line(file: FileInfoView) -> Seq<char> {
    last_segment(file.name) + "\t\t"@ + decimal(file.size as nat)
}

/// The lines of the files, one after the other.
pub open spec fn file_lines(files: Seq<FileInfoView>) -> Seq<char>
    decreases files.len(),
{
    if files.len() == 0 {
        Seq::empty()
    } else {
        file_lines(files.drop_last()) + file_line(files.last())
    }
}

/// The listing of the files that `source` has on offer: a heading that
/// names the source, then the lines of the files.
pub open spec fn listing(source: Seq<char>, files: Seq<FileInfoView>) -> Seq<char> {
    source + " available files:\nFile\t\tSize (bytes)\n"@ + file_lines(files)
}

/// The line that tells of the progress of a transfer.
pub open spec fn progress_line(progress: ProgressRequestView) -> Seq<char> {
    progress.name + " progress: "@ + decimal(progress.progress as nat) + "%"@
}

fn digit_text(value: u64) -> (text: &'static str)
    requires
        value < 10,
    ensures
        text@ == seq![digit(value as int)],
{
    proof {
        reveal_strlit("0");
        reveal_strlit("1");
        reveal_strlit("2");
        reveal_strlit("3");
        reveal_strlit("4");
        reveal_strlit("5");
        reveal_strlit("6");
        reveal_strlit("7");
        reveal_strlit("8");
        reveal_strlit("9");
    }
    let text = if value == 0 {
        "0"
    } else if value == 1 {
        "1"
    } else if value == 2 {
        "2"
    } else if value == 3 {
        "3"
    } else if value == 4 {
        "4"
    } else if value == 5 {
        "5"
    } else if value == 6 {
        "6"
    } else if value == 7 {
        "7"
    } else if value == 8 {
        "8"
    } else {
        "9"
    };
    assert(text@ =~= seq![digit(value as int)]);
    text
}

/// Writes `number` in decimal digits.
pub fn decimal_text(number: u64) -> (text: String)
    ensures
        text@ == decimal(number as nat),
    decreases number,
{
    if number < 10 {
        String::from_str(digit_text(number))
    } else {
        let mut text = decimal_text(number / 10);
        let last = digit_text(number % 10);
        text.append(last);
        assert(text@ =~= decimal((number / 10) as nat).push(digit((number % 10) as int)));
        text
    }
}

/// The last segment of a path is what follows a `/` that no `/` follows.
proof fn lemma_last_segment(path: Seq<char>, start: int)
    requires
        0 <= start <= path.len(),
        start > 0 ==> path[start - 1] == '/',
        forall|i: int| start <= i < path.len() ==> path[i] != '/',
    ensures
        last_segment(path) == path.subrange(start, path.len() as int),
    decreases path.len(),
{
    if start == path.len() {
        assert(path.subrange(start, path.len() as int) =~= Seq::<char>::empty());
    } else {
        lemma_last_segment(path.drop_last(), start);
        assert(path.drop_last().subrange(start, path.len() - 1).push(path.last())
            =~= path.subrange(start, path.len() as int));
    }
}

/// The name of a file without the directories above it.
pub fn file_name(path: &str) -> (name: &str)
    ensures
        name@ == last_segment(path@),
{
    let length = path.unicode_len();
    let mut start = length;
    while start > 0 && path.get_char(start - 1) != '/'
        invariant
            start <= length == path@.len(),
            forall|i: int| start <= i < length ==> path@[i] != '/',
        decreases start,
    {
        start = start - 1;
    }
    proof {
        lemma_last_segment(path@, start as int);
    }
    path.substring_char(start, length)
}

impl Address {
    /// The address written as `node@process:package:publisher`.
    pub fn text(&self) -> (text: String)
        ensures
            text@ == self@.text(),
    {
        let mut text = self.node.clone();
        text.append("@");
        text.append(self.process.process_name.as_str());
        text.append(":");
        text.append(self.process.package_name.as_str());
        text.append(":");
        text.append(self.process.publisher_node.as_str());
        text
    }
}

/// The listing of `files`, which `source` has on offer.
pub fn listing_text(source: &str, files: &Vec<FileInfo>) -> (text: String)
    ensures
        text@ == listing(source@, files_view(files@)),
{
    let mut text = String::from_str(source);
    text.append(" available files:\nFile\t\tSize (bytes)\n");
    let ghost heading = text@;
    let mut index: usize = 0;
    assert(files_view(files@).take(0) =~= Seq::<FileInfoView>::empty());
    assert(heading + Seq::<char>::empty() =~= heading);
    while index < files.len()
        invariant
            index <= files.len(),
            text@ == heading + file_lines(files_view(files@).take(index as int)),
        decreases files.len() - index,
    {
        let file = &files[index];
        let ghost before = file_lines(files_view(files@).take(index as int));
        assert(files_view(files@).take(index + 1).drop_last() =~= files_view(files@).take(
            index as int,
        ));
        assert(files_view(files@).take(index + 1).last() == file@);
        text.append(file_name(file.name.as_str()));
        text.append("\t\t");
        let size = decimal_text(file.size);
        text.append(size.as_str());
        assert(text@ =~= heading + (before + file_line(file@)));
        index = index + 1;
    }
    assert(files_view(files@).take(index as int) =~= files_view(files@));
    text
}

/// The line that tells of the progress of a transfer.
pub fn progress_text(progress: &ProgressRequest) -> (text: String)
    ensures
        text@ == progress_line(progress@),
{
    let mut text = progress.name.clone();
    text.append(" progress: ");
    let percent = decimal_text(progress.progress);
    text.append(percent.as_str());
    text.append("%");
    text
}

} // verus!

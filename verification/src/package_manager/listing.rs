//! Reading the listings that the package tools print, line by line.
//!
//! A listing is read best effort: a line that does not have the shape of an
//! entry is left out, and noted where it looks like a damaged entry. Nothing
//! in a listing is an error.

use crate::package_manager::{Package, PackageView};
use crate::text::{
    characters, contains, contains_pattern, find_from, index_of, is_word, lemma_words_are_words,
    lines, slice_views, split_lines, split_whitespace, text_of, trim_end, trim_end_matches, words,
};
use vstd::prelude::*;
use vstd::string::StringExecFns;

verus! {

/// The tools whose listings are read.
#[derive(Debug, Clone, Copy, PartialEq, Eq, Structural)]
pub enum Format {
    /// `apt list --upgradable`
    Apt,
    /// `checkupdates`
    Pacman,
    /// `paru -Qua`
    Paru,
    /// `yay -Qua`
    Yay,
}

/// Why a line that looks like an entry was left out.
#[derive(Debug, Clone, Copy, PartialEq, Eq, Structural)]
pub enum Fault {
    /// The line has fewer fields than an entry.
    TooFewFields,
    /// The third field is not the arrow between the two versions.
    MissingArrow,
    /// Nothing stands before the slash of the first field.
    EmptyName,
    /// The installed version is nothing but closing brackets.
    EmptyVersion,
}

/// What a line of a listing comes to.
pub enum Reading {
    /// The line is an entry.
    Entry(PackageView),
    /// The line is no entry and does not look like one.
    Nothing,
    /// The line looks like an entry and is none.
    Malformed(Fault),
}

/// The text that marks an entry of an APT listing.
pub open spec fn apt_marker() -> Seq<char> {
    "[upgradable from:"@
}

/// The text between the two versions of an entry of the Pacman family.
pub open spec fn arrow() -> Seq<char> {
    "->"@
}

impl Format {
    /// Whether the listing begins with a banner line that is no entry.
    pub open spec fn has_banner(self) -> bool {
        self is Apt
    }

    /// Whether the entries come from the AUR.
    pub open spec fn from_aur(self) -> bool {
        self is Paru || self is Yay
    }
}

/// A line of an APT listing: `name/suite new arch [upgradable from: old]`.
pub open spec fn read_apt_line(line: Seq<char>) -> Reading {
    let fields = words(line);
    let name = fields[0].take(index_of(fields[0], '/'));
    let current_version = trim_end(fields[5], ']');
    if !contains(line, apt_marker()) {
        Reading::Nothing
    } else if fields.len() < 6 {
        Reading::Malformed(Fault::TooFewFields)
    } else if name.len() == 0 {
        Reading::Malformed(Fault::EmptyName)
    } else if current_version.len() == 0 {
        Reading::Malformed(Fault::EmptyVersion)
    } else {
        Reading::Entry(
            PackageView { name, current_version, new_version: fields[1], is_aur: false },
        )
    }
}

/// A line of a listing of the Pacman family: `name old -> new`.
pub open spec fn read_arrow_line(line: Seq<char>, is_aur: bool) -> Reading {
    let fields = words(line);
    if fields.len() == 0 {
        Reading::Nothing
    } else if fields.len() < 4 {
        Reading::Malformed(Fault::TooFewFields)
    } else if fields[2] != arrow() {
        Reading::Malformed(Fault::MissingArrow)
    } else {
        Reading::Entry(
            PackageView {
                name: fields[0],
                current_version: fields[1],
                new_version: fields[3],
                is_aur,
            },
        )
    }
}

/// A line of a listing in the given format.
pub open spec fn read_line(format: Format, line: Seq<char>) -> Reading {
    match format {
        Format::Apt => read_apt_line(line),
        Format::Pacman => read_arrow_line(line, false),
        Format::Paru => read_arrow_line(line, true),
        Format::Yay => read_arrow_line(line, true),
    }
}

/// The lines of a listing that may hold entries: all but the banner.
pub open spec fn entry_lines(format: Format, text: Seq<char>) -> Seq<Seq<char>> {
    let all = lines(text);
    if format.has_banner() && all.len() > 0 {
        all.skip(1)
    } else {
        all
    }
}

/// The entries among the given lines, in their order.
pub open spec fn entries(format: Format, lines: Seq<Seq<char>>) -> Seq<PackageView>
    decreases lines.len(),
{
    if lines.len() == 0 {
        Seq::empty()
    } else {
        let rest = entries(format, lines.skip(1));
        match read_line(format, lines[0]) {
            Reading::Entry(package) => seq![package] + rest,
            _ => rest,
        }
    }
}

/// The packages that a listing in the given format holds.
pub open spec fn packages_of(format: Format, text: Seq<char>) -> Seq<PackageView> {
    entries(format, entry_lines(format, text))
}

/// A line that was left out of a listing's packages because it is damaged.
#[derive(Debug, Clone)]
pub struct Skipped {
    /// The format of the listing that the line stood in.
    pub format: Format,
    /// The line as it stood in the listing.
    pub line: String,
    pub fault: Fault,
}

/// A skipped line as contracts speak of it.
pub struct SkippedView {
    pub format: Format,
    pub line: Seq<char>,
    pub fault: Fault,
}

impl View for Skipped {
    type V = SkippedView;

    open spec fn view(&self) -> SkippedView {
        SkippedView { format: self.format, line: self.line@, fault: self.fault }
    }
}

impl DeepView for Skipped {
    type V = SkippedView;

    open spec fn deep_view(&self) -> SkippedView {
        self@
    }
}

/// The damaged lines among the given lines, in their order.
pub open spec fn damaged(format: Format, lines: Seq<Seq<char>>) -> Seq<SkippedView>
    decreases lines.len(),
{
    if lines.len() == 0 {
        Seq::empty()
    } else {
        let rest = damaged(format, lines.skip(1));
        match read_line(format, lines[0]) {
            Reading::Malformed(fault) => seq![SkippedView { format, line: lines[0], fault }] + rest,
            _ => rest,
        }
    }
}

/// The damaged lines of a listing in the given format.
pub open spec fn skipped_of(format: Format, text: Seq<char>) -> Seq<SkippedView> {
    damaged(format, entry_lines(format, text))
}

/// What a listing was read to: its packages, and the lines that were left out
/// as damaged.
#[derive(Debug, Clone)]
pub struct Listing {
    pub packages: Vec<Package>,
    pub skipped: Vec<Skipped>,
}

/// A listing as contracts speak of it.
pub struct ListingView {
    pub packages: Seq<PackageView>,
    pub skipped: Seq<SkippedView>,
}

impl View for Listing {
    type V = ListingView;

    open spec fn view(&self) -> ListingView {
        ListingView { packages: self.packages.deep_view(), skipped: self.skipped.deep_view() }
    }
}

/// What a listing in the given format is read to.
pub open spec fn listing_of(format: Format, text: Seq<char>) -> ListingView {
    ListingView { packages: packages_of(format, text), skipped: skipped_of(format, text) }
}

/// The listing that holds nothing.
pub open spec fn empty_listing() -> ListingView {
    ListingView { packages: Seq::empty(), skipped: Seq::empty() }
}

/// What one line was read to.
enum Line {
    Entry(Package),
    Nothing,
    Malformed(Fault),
}

impl View for Line {
    type V = Reading;

    closed spec fn view(&self) -> Reading {
        match self {
            Line::Entry(package) => Reading::Entry(package@),
            Line::Nothing => Reading::Nothing,
            Line::Malformed(fault) => Reading::Malformed(*fault),
        }
    }
}

fn scan_apt_line(line: &[char], marker: &[char]) -> (out: Line)
    requires
        marker@ == apt_marker(),
    ensures
        out@ == read_apt_line(line@),
{
    if !contains_pattern(line, marker) {
        return Line::Nothing;
    }
    let fields = split_whitespace(line);
    if fields.len() < 6 {
        return Line::Malformed(Fault::TooFewFields);
    }
    proof {
        assert(fields[0]@ == words(line@)[0]);
        assert(fields[1]@ == words(line@)[1]);
        assert(fields[5]@ == words(line@)[5]);
    }
    let first: &[char] = fields[0];
    let slash: usize = find_from(first, 0, '/');
    proof {
        assert(first@.skip(0) == first@);
        assert(first@.subrange(0, slash as int) == first@.take(slash as int));
    }
    if slash == 0 {
        return Line::Malformed(Fault::EmptyName);
    }
    let installed: &[char] = trim_end_matches(fields[5], ']');
    if installed.len() == 0 {
        return Line::Malformed(Fault::EmptyVersion);
    }
    Line::Entry(
        Package {
            name: text_of(&first[0..slash]),
            current_version: text_of(installed),
            new_version: text_of(fields[1]),
            is_aur: false,
        },
    )
}

fn is_arrow(field: &[char]) -> (yes: bool)
    ensures
        yes == (field@ == arrow()),
{
    proof {
        reveal_strlit("->");
    }
    let yes = field.len() == 2 && field[0] == '-' && field[1] == '>';
    proof {
        if yes {
            assert(field@ =~= arrow());
        }
    }
    yes
}

fn scan_arrow_line(line: &[char], is_aur: bool) -> (out: Line)
    ensures
        out@ == read_arrow_line(line@, is_aur),
{
    let fields = split_whitespace(line);
    if fields.len() == 0 {
        return Line::Nothing;
    }
    if fields.len() < 4 {
        return Line::Malformed(Fault::TooFewFields);
    }
    proof {
        assert(fields[0]@ == words(line@)[0]);
        assert(fields[1]@ == words(line@)[1]);
        assert(fields[2]@ == words(line@)[2]);
        assert(fields[3]@ == words(line@)[3]);
    }
    if !is_arrow(fields[2]) {
        return Line::Malformed(Fault::MissingArrow);
    }
    Line::Entry(
        Package {
            name: text_of(fields[0]),
            current_version: text_of(fields[1]),
            new_version: text_of(fields[3]),
            is_aur,
        },
    )
}

fn scan_line(format: Format, line: &[char], marker: &[char]) -> (out: Line)
    requires
        marker@ == apt_marker(),
    ensures
        out@ == read_line(format, line@),
{
    match format {
        Format::Apt => scan_apt_line(line, marker),
        Format::Pacman => scan_arrow_line(line, false),
        Format::Paru => scan_arrow_line(line, true),
        Format::Yay => scan_arrow_line(line, true),
    }
}

/// Reads a listing in the given format: every line that is an entry gives a
/// package, in the order of the lines, and every damaged line is noted.
pub fn read_listing(format: Format, output: &str) -> (listing: Listing)
    ensures
        listing@ == listing_of(format, output@),
        forall|i: int|
            0 <= i < listing.packages.len() ==> (#[trigger] listing.packages[i])@.well_formed(),
        forall|i: int|
            0 <= i < listing.packages.len() ==> (#[trigger] listing.packages[i]).is_aur
                == format.from_aur(),
{
    let chars = characters(output);
    let marker = characters("[upgradable from:");
    let all = split_lines(chars.as_slice());
    let mut packages: Vec<Package> = Vec::new();
    let mut skipped: Vec<Skipped> = Vec::new();
    let banner = match format {
        Format::Apt => true,
        _ => false,
    };
    let mut i: usize = if banner && all.len() > 0 {
        1
    } else {
        0
    };
    let ghost source = entry_lines(format, output@);
    let ghost first = i;
    proof {
        assert(source == lines(output@).skip(first as int));
        assert(packages.deep_view() + entries(format, source) == entries(format, source));
        assert(skipped.deep_view() + damaged(format, source) == damaged(format, source));
    }
    while i < all.len()
        invariant
            first <= i <= all.len(),
            marker@ == apt_marker(),
            slice_views(all@) == lines(output@),
            source == lines(output@).skip(first as int),
            entries(format, source) == packages.deep_view() + entries(
                format,
                lines(output@).skip(i as int),
            ),
            damaged(format, source) == skipped.deep_view() + damaged(
                format,
                lines(output@).skip(i as int),
            ),
            forall|j: int| 0 <= j < packages.len() ==> (#[trigger] packages[j])@.well_formed(),
            forall|j: int|
                0 <= j < packages.len() ==> (#[trigger] packages[j]).is_aur == format.from_aur(),
        decreases all.len() - i,
    {
        let line: &[char] = all[i];
        let ghost rest = lines(output@).skip(i as int);
        proof {
            assert(line@ == slice_views(all@)[i as int]);
            assert(rest[0] == line@);
            assert(rest.skip(1) == lines(output@).skip(i + 1));
            lemma_entry_well_formed(format, line@);
        }
        match scan_line(format, line, marker.as_slice()) {
            Line::Entry(package) => {
                let ghost before = packages.deep_view();
                let ghost entry = package@;
                packages.push(package);
                proof {
                    assert(packages.deep_view() == before + seq![entry]);
                }
            },
            Line::Nothing => {},
            Line::Malformed(fault) => {
                let note = Skipped { format, line: text_of(line), fault };
                let ghost before = skipped.deep_view();
                let ghost noted = note@;
                skipped.push(note);
                proof {
                    assert(skipped.deep_view() == before + seq![noted]);
                }
            },
        }
        i += 1;
    }
    proof {
        assert(lines(output@).skip(i as int).len() == 0);
        assert(packages.deep_view() + Seq::<PackageView>::empty() == packages.deep_view());
        assert(skipped.deep_view() + Seq::<SkippedView>::empty() == skipped.deep_view());
    }
    Listing { packages, skipped }
}

/// A line that is read as an entry gives a package with a name and both
/// versions, marked as the format's source.
pub proof fn lemma_entry_well_formed(format: Format, line: Seq<char>)
    ensures
        read_line(format, line) matches Reading::Entry(package) ==> package.well_formed()
            && package.is_aur == format.from_aur(),
{
    lemma_words_are_words(line);
    let fields = words(line);
    if fields.len() >= 4 {
        assert(is_word(fields[0]) && is_word(fields[1]) && is_word(fields[3]));
    }
}

/// Every entry among the given lines has a name and both versions, and is
/// marked as the format's source.
pub proof fn lemma_entries_well_formed(format: Format, lines: Seq<Seq<char>>)
    ensures
        forall|i: int|
            0 <= i < entries(format, lines).len() ==> {
                &&& (#[trigger] entries(format, lines)[i]).well_formed()
                &&& entries(format, lines)[i].is_aur == format.from_aur()
            },
    decreases lines.len(),
{
    if lines.len() > 0 {
        let rest = entries(format, lines.skip(1));
        lemma_entries_well_formed(format, lines.skip(1));
        lemma_entry_well_formed(format, lines[0]);
        assert forall|i: int| 0 <= i < entries(format, lines).len() implies {
            &&& (#[trigger] entries(format, lines)[i]).well_formed()
            &&& entries(format, lines)[i].is_aur == format.from_aur()
        } by {
            match read_line(format, lines[0]) {
                Reading::Entry(package) => {
                    assert(entries(format, lines) == seq![package] + rest);
                    if i > 0 {
                        assert(entries(format, lines)[i] == rest[i - 1]);
                    }
                },
                _ => {},
            }
        }
    }
}

/// No listing, whatever it holds, gives a package without a name or without
/// one of its versions.
pub proof fn lemma_packages_have_all_fields(format: Format, text: Seq<char>)
    ensures
        forall|i: int|
            0 <= i < packages_of(format, text).len() ==> (#[trigger] packages_of(
                format,
                text,
            )[i]).well_formed(),
{
    lemma_entries_well_formed(format, entry_lines(format, text));
}

/// Every package of a listing carries the mark of the listing's source: a
/// listing of an AUR helper gives AUR packages only, one of an official tool
/// none.
pub proof fn lemma_packages_carry_source(format: Format, text: Seq<char>)
    ensures
        forall|i: int|
            0 <= i < packages_of(format, text).len() ==> (#[trigger] packages_of(
                format,
                text,
            )[i]).is_aur == format.from_aur(),
{
    lemma_entries_well_formed(format, entry_lines(format, text));
}

/// The empty listing holds no package and no damaged line, in every format.
pub proof fn lemma_empty_listing(format: Format)
    ensures
        packages_of(format, Seq::empty()) == Seq::<PackageView>::empty(),
        skipped_of(format, Seq::empty()) == Seq::<SkippedView>::empty(),
{
    assert(lines(Seq::<char>::empty()).len() == 0);
}

impl Format {
    /// The tool's name as the warnings write it.
    pub open spec fn label(self) -> Seq<char> {
        match self {
            Format::Apt => "APT"@,
            Format::Pacman => "Pacman"@,
            Format::Paru => "Paru"@,
            Format::Yay => "Yay"@,
        }
    }

    /// The tool's name as the warnings write it.
    pub fn label_text(self) -> (out: &'static str)
        ensures
            out@ == self.label(),
    {
        match self {
            Format::Apt => "APT",
            Format::Pacman => "Pacman",
            Format::Paru => "Paru",
            Format::Yay => "Yay",
        }
    }
}

/// The warning that tells of a skipped line.
pub open spec fn warning_text(skipped: SkippedView) -> Seq<char> {
    let format = skipped.format;
    let line = skipped.line;
    match skipped.fault {
        Fault::TooFewFields => "Warning: Skipping malformed "@ + format.label()
            + " line (insufficient fields): "@ + line,
        Fault::MissingArrow => "Warning: Skipping "@ + format.label()
            + " line with unexpected format (missing '->'): "@ + line,
        Fault::EmptyName => "Warning: Skipping "@ + format.label()
            + " line with empty package name: "@ + line,
        Fault::EmptyVersion => "Warning: Skipping "@ + format.label()
            + " line with empty version: "@ + line,
    }
}

impl Skipped {
    /// The warning that tells of this line.
    pub fn warning(&self) -> (out: String)
        ensures
            out@ == warning_text(self@),
    {
        let format = self.format;
        let mut out = String::new();
        match self.fault {
            Fault::TooFewFields => {
                out.append("Warning: Skipping malformed ");
                out.append(format.label_text());
                out.append(" line (insufficient fields): ");
            },
            Fault::MissingArrow => {
                out.append("Warning: Skipping ");
                out.append(format.label_text());
                out.append(" line with unexpected format (missing '->'): ");
            },
            Fault::EmptyName => {
                out.append("Warning: Skipping ");
                out.append(format.label_text());
                out.append(" line with empty package name: ");
            },
            Fault::EmptyVersion => {
                out.append("Warning: Skipping ");
                out.append(format.label_text());
                out.append(" line with empty version: ");
            },
        }
        out.append(self.line.as_str());
        proof {
            assert(Seq::<char>::empty() + "Warning: Skipping malformed "@
                == "Warning: Skipping malformed "@);
            assert(Seq::<char>::empty() + "Warning: Skipping "@ == "Warning: Skipping "@);
        }
        out
    }
}

} // verus!

//! The text of a manifest, as `export` writes it and `import` reads it.
//!
//! The text is a sequence of lines, each ended by a line feed. A line that
//! begins with `system ` names the target system; any other line that is not
//! empty is one package specifier. Empty lines are skipped, and the last line
//! may go without its line feed.

use vstd::prelude::*;
use vstd::string::StringExecFns;
use crate::error::ErrorKind;
use crate::manifest::{Manifest, ManifestView};
use crate::names;

verus! {

/// What a line that names the system begins with.
pub open spec fn system_prefix() -> Seq<char> {
    seq!['s', 'y', 's', 't', 'e', 'm', ' ']
}

/// The lines of a text: what stands between its line feeds. The last line
/// is what follows the last line feed, and is empty where nothing does.
pub open spec fn split_lines(text: Seq<char>) -> Seq<Seq<char>>
    decreases text.len(),
{
    if text.len() == 0 {
        seq![Seq::empty()]
    } else {
        let before = split_lines(text.drop_last());
        if text.last() == '\n' {
            before.push(Seq::empty())
        } else {
            before.update(before.len() - 1, before.last().push(text.last()))
        }
    }
}

/// The text made of these lines, each with its line feed.
pub open spec fn join_lines(lines: Seq<Seq<char>>) -> Seq<char>
    decreases lines.len(),
{
    if lines.len() == 0 {
        Seq::empty()
    } else {
        join_lines(lines.drop_last()) + lines.last().push('\n')
    }
}

/// The manifest read so far, after one more line; `None` once a line was
/// malformed or a second line named the system.
pub open spec fn accept_line(sofar: Option<ManifestView>, line: Seq<char>) -> Option<
    ManifestView,
> {
    match sofar {
        None => None,
        Some(manifest) => if line.len() == 0 {
            sofar
        } else if system_prefix().is_prefix_of(line) {
            let system = line.skip(system_prefix().len() as int);
            if manifest.system is None && names::well_formed(system) {
                Some(ManifestView { packages: manifest.packages, system: Some(system) })
            } else {
                None
            }
        } else if names::well_formed(line) {
            Some(ManifestView { packages: manifest.packages.push(line), system: manifest.system })
        } else {
            None
        },
    }
}

/// The manifest that the lines spell, read from the first to the last.
pub open spec fn read_lines(lines: Seq<Seq<char>>) -> Option<ManifestView>
    decreases lines.len(),
{
    if lines.len() == 0 {
        Some(ManifestView::empty())
    } else {
        accept_line(read_lines(lines.drop_last()), lines.last())
    }
}

/// The manifest that a text spells, if it spells a valid one.
pub open spec fn parsed(text: Seq<char>) -> Option<ManifestView> {
    match read_lines(split_lines(text)) {
        Some(manifest) => if manifest.packages.no_duplicates() {
            Some(manifest)
        } else {
            None
        },
        None => None,
    }
}

impl ManifestView {
    /// The lines of this manifest: the system first, where one is named,
    /// then the specifiers in their order.
    pub open spec fn to_lines(self) -> Seq<Seq<char>> {
        match self.system {
            Some(system) => seq![system_prefix() + system] + self.packages,
            None => self.packages,
        }
    }

    /// The text of this manifest.
    pub open spec fn to_text(self) -> Seq<char> {
        join_lines(self.to_lines())
    }
}

/// No line holds a line feed.
pub open spec fn single_lines(lines: Seq<Seq<char>>) -> bool {
    forall|i: int, j: int|
        0 <= i < lines.len() && 0 <= j < lines[i].len() ==> (#[trigger] lines[i][j]) != '\n'
}

/// Characters other than the line feed go onto the last line.
proof fn lemma_split_extend(text: Seq<char>, more: Seq<char>)
    requires
        forall|j: int| 0 <= j < more.len() ==> more[j] != '\n',
    ensures
        split_lines(text).len() > 0,
        split_lines(text + more) == split_lines(text).update(
            split_lines(text).len() - 1,
            split_lines(text).last() + more,
        ),
    decreases more.len(),
{
    lemma_split_not_empty(text);
    let lines = split_lines(text);
    if more.len() == 0 {
        assert(text + more =~= text);
        assert(lines.last() + more =~= lines.last());
        assert(lines.update(lines.len() - 1, lines.last()) =~= lines);
    } else {
        let shorter = more.drop_last();
        lemma_split_extend(text, shorter);
        assert((text + more).drop_last() =~= text + shorter);
        assert((text + more).last() == more.last());
        let before = split_lines(text + shorter);
        assert(before.last().push(more.last()) =~= lines.last() + more);
        assert(before.update(before.len() - 1, lines.last() + more) =~= lines.update(
            lines.len() - 1,
            lines.last() + more,
        ));
    }
}

/// Every text has at least one line.
proof fn lemma_split_not_empty(text: Seq<char>)
    ensures
        split_lines(text).len() > 0,
    decreases text.len(),
{
    if text.len() > 0 {
        lemma_split_not_empty(text.drop_last());
    }
}

/// Splitting the text made of lines gives those lines back, and one empty
/// line behind the last line feed.
pub proof fn split_of_joined_lines(lines: Seq<Seq<char>>)
    requires
        single_lines(lines),
    ensures
        split_lines(join_lines(lines)) == lines.push(Seq::empty()),
    decreases lines.len(),
{
    if lines.len() == 0 {
        assert(split_lines(join_lines(lines)) =~= lines.push(Seq::empty()));
    } else {
        let shorter = lines.drop_last();
        let last = lines.last();
        assert(single_lines(shorter)) by {
            assert forall|i: int, j: int|
                0 <= i < shorter.len() && 0 <= j < shorter[i].len() implies (
            #[trigger] shorter[i][j]) != '\n' by {
                assert(lines[i][j] != '\n');
            }
        }
        split_of_joined_lines(shorter);
        let head = join_lines(shorter);
        assert forall|j: int| 0 <= j < last.len() implies last[j] != '\n' by {
            assert(lines[lines.len() - 1][j] != '\n');
        }
        lemma_split_extend(head, last);
        let text = join_lines(lines);
        assert(text =~= (head + last).push('\n'));
        assert(text.drop_last() =~= head + last);
        assert(Seq::<char>::empty() + last =~= last);
        assert(split_lines(text) =~= lines.push(Seq::empty()));
    }
}

/// A well-formed specifier is never taken for a line that names the system.
proof fn lemma_specifier_is_no_system_line(name: Seq<char>)
    requires
        names::well_formed(name),
    ensures
        !system_prefix().is_prefix_of(name),
{
    if system_prefix().is_prefix_of(name) {
        assert(name.subrange(0, 7)[6] == system_prefix()[6]);
        assert(names::is_blank(name[6]));
    }
}

/// Reading the specifiers of a valid manifest, behind its system line if it
/// has one, gives the manifest up to there.
proof fn lemma_read_own_lines(manifest: ManifestView, count: int)
    requires
        manifest.valid(),
        0 <= count <= manifest.packages.len(),
    ensures
        read_lines(
            (ManifestView { packages: manifest.packages.take(count), system: manifest.system })
                .to_lines(),
        ) == Some(
            ManifestView { packages: manifest.packages.take(count), system: manifest.system },
        ),
    decreases count,
{
    let upto = ManifestView { packages: manifest.packages.take(count), system: manifest.system };
    let lines = upto.to_lines();
    if count == 0 {
        assert(upto.packages =~= Seq::empty());
        match manifest.system {
            Some(system) => {
                let line = system_prefix() + system;
                assert(lines =~= seq![line]);
                assert(lines.drop_last() =~= Seq::empty());
                assert(read_lines(lines.drop_last()) == Some(ManifestView::empty()));
                assert(line.subrange(0, 7) =~= system_prefix());
                assert(line.skip(7) =~= system);
            },
            None => {
                assert(lines =~= Seq::empty());
            },
        }
    } else {
        lemma_read_own_lines(manifest, count - 1);
        let before = ManifestView {
            packages: manifest.packages.take(count - 1),
            system: manifest.system,
        };
        let name = manifest.packages[count - 1];
        assert(lines.drop_last() =~= before.to_lines());
        assert(lines.last() == name);
        assert(names::well_formed(name));
        lemma_specifier_is_no_system_line(name);
        assert(before.packages.push(name) =~= upto.packages);
    }
}

/// Whatever the lines spell holds only well-formed specifiers and, where it
/// names a system, a well-formed one.
proof fn lemma_read_is_well_formed(lines: Seq<Seq<char>>)
    ensures
        read_lines(lines) matches Some(manifest) ==> names::all_well_formed(manifest.packages) && (
        manifest.system matches Some(system) ==> names::well_formed(system)),
    decreases lines.len(),
{
    if lines.len() > 0 {
        lemma_read_is_well_formed(lines.drop_last());
        if let Some(manifest) = read_lines(lines) {
            let before = read_lines(lines.drop_last())->0;
            assert forall|i: int| 0 <= i < manifest.packages.len() implies names::well_formed(
                #[trigger] manifest.packages[i],
            ) by {
                if i < before.packages.len() {
                    assert(manifest.packages[i] == before.packages[i]);
                }
            }
        }
    }
}

/// A manifest that a text spells is valid.
pub proof fn parsed_manifest_is_valid(text: Seq<char>)
    ensures
        parsed(text) matches Some(manifest) ==> manifest.valid(),
{
    lemma_read_is_well_formed(split_lines(text));
}

/// The text of a valid manifest spells that manifest.
pub proof fn text_round_trip(manifest: ManifestView)
    requires
        manifest.valid(),
    ensures
        parsed(manifest.to_text()) == Some(manifest),
{
    let lines = manifest.to_lines();
    assert(single_lines(lines)) by {
        assert forall|i: int, j: int|
            0 <= i < lines.len() && 0 <= j < lines[i].len() implies (#[trigger] lines[i][j])
            != '\n' by {
            match manifest.system {
                Some(system) => {
                    if i == 0 {
                        if j >= 7 {
                            assert(!names::is_blank(system[j - 7]));
                        }
                    } else {
                        assert(names::well_formed(manifest.packages[i - 1]));
                        assert(!names::is_blank(manifest.packages[i - 1][j]));
                    }
                },
                None => {
                    assert(names::well_formed(manifest.packages[i]));
                    assert(!names::is_blank(manifest.packages[i][j]));
                },
            }
        }
    }
    split_of_joined_lines(lines);
    let all = lines.push(Seq::empty());
    assert(all.drop_last() =~= lines);
    lemma_read_own_lines(manifest, manifest.packages.len() as int);
    assert(manifest.packages.take(manifest.packages.len() as int) =~= manifest.packages);
}

/// The value of a manifest that may have failed to read.
pub open spec fn read_so_far(sofar: Option<Manifest>) -> Option<ManifestView> {
    match sofar {
        Some(manifest) => Some(manifest@),
        None => None,
    }
}

/// Whether the line begins with `system `.
fn names_system(line: &str) -> (found: bool)
    ensures
        found == system_prefix().is_prefix_of(line@),
{
    if line.unicode_len() < 7 {
        return false;
    }
    let found = line.get_char(0) == 's' && line.get_char(1) == 'y' && line.get_char(2) == 's'
        && line.get_char(3) == 't' && line.get_char(4) == 'e' && line.get_char(5) == 'm'
        && line.get_char(6) == ' ';
    proof {
        let start = line@.subrange(0, 7);
        if found {
            assert(start =~= system_prefix());
        } else {
            assert(start[0] == line@[0] && start[1] == line@[1] && start[2] == line@[2]
                && start[3] == line@[3] && start[4] == line@[4] && start[5] == line@[5]
                && start[6] == line@[6]);
        }
    }
    found
}

/// Takes one more line into the manifest read so far.
fn accept(sofar: Option<Manifest>, line: &str) -> (next: Option<Manifest>)
    ensures
        read_so_far(next) == accept_line(read_so_far(sofar), line@),
{
    match sofar {
        None => None,
        Some(manifest) => {
            let len = line.unicode_len();
            if len == 0 {
                Some(manifest)
            } else if names_system(line) {
                let system = line.substring_char(7, len);
                if manifest.system.is_none() && names::is_well_formed(system) {
                    Some(Manifest::new(manifest.packages, Some(String::from_str(system))))
                } else {
                    None
                }
            } else if names::is_well_formed(line) {
                let mut packages = manifest.packages;
                let ghost before = packages.deep_view();
                packages.push(String::from_str(line));
                assert(packages.deep_view() =~= before.push(line@));
                Some(Manifest::new(packages, manifest.system))
            } else {
                None
            }
        },
    }
}

impl Manifest {
    /// Writes the manifest as text.
    pub fn to_text(&self) -> (text: String)
        ensures
            text@ == self@.to_text(),
    {
        let mut text = String::new();
        proof {
            reveal_strlit("system ");
            reveal_strlit("\n");
            assert("system "@ =~= system_prefix());
            assert("\n"@ =~= seq!['\n']);
        }
        let ghost head: Seq<Seq<char>> = Seq::empty();
        match &self.system {
            Some(system) => {
                text.append("system ");
                text.append(system.as_str());
                text.append("\n");
                proof {
                    head = seq![system_prefix() + system@];
                    assert(head.drop_last() =~= Seq::empty());
                    assert(join_lines(head.drop_last()) =~= Seq::empty());
                    assert(text@ =~= join_lines(head));
                }
            },
            None => {
                assert(text@ =~= join_lines(head));
            },
        }
        let mut i: usize = 0;
        assert(head + self@.packages.take(0) =~= head);
        while i < self.packages.len()
            invariant
                i <= self.packages.len(),
                "\n"@ == seq!['\n'],
                text@ == join_lines(head + self@.packages.take(i as int)),
            decreases self.packages.len() - i,
        {
            proof {
                let sofar = head + self@.packages.take(i as int);
                let next = head + self@.packages.take(i + 1);
                assert(next.drop_last() =~= sofar);
                assert(next.last() == self.packages[i as int]@);
            }
            let ghost before = text@;
            text.append(self.packages[i].as_str());
            text.append("\n");
            assert(text@ =~= before + self.packages[i as int]@.push('\n'));
            i = i + 1;
        }
        proof {
            assert(self@.packages.take(i as int) =~= self@.packages);
            assert(head + self@.packages =~= self@.to_lines());
        }
        text
    }

    /// Reads a manifest from text. The text is refused where a line is
    /// malformed, where two lines name the system, and where a specifier
    /// occurs twice.
    pub fn parse(text: &str) -> (result: Result<Manifest, ErrorKind>)
        ensures
            match result {
                Ok(manifest) => parsed(text@) == Some(manifest@),
                Err(kind) => kind == ErrorKind::ValidationError && parsed(text@) is None,
            },
    {
        let len = text.unicode_len();
        let mut sofar = Some(Manifest::empty());
        let mut start: usize = 0;
        let mut i: usize = 0;
        proof {
            assert(text@.take(0) =~= Seq::empty());
            assert(text@.subrange(0, 0) =~= Seq::empty());
            assert(split_lines(text@.take(0)).drop_last() =~= Seq::empty());
        }
        for c in it: text.chars()
            invariant
                it.seq() == text@,
                len == text@.len(),
                i == it.index(),
                start <= i,
                split_lines(text@.take(i as int)).len() > 0,
                split_lines(text@.take(i as int)).last() == text@.subrange(
                    start as int,
                    i as int,
                ),
                read_lines(split_lines(text@.take(i as int)).drop_last()) == read_so_far(sofar),
        {
            proof {
                let upto = text@.take(i + 1);
                let lines = split_lines(text@.take(i as int));
                assert(upto.drop_last() =~= text@.take(i as int));
                assert(upto.last() == c);
                if c == '\n' {
                    assert(split_lines(upto).drop_last() =~= lines);
                    assert(text@.subrange(i + 1, i + 1) =~= Seq::empty());
                } else {
                    assert(split_lines(upto).drop_last() =~= lines.drop_last());
                    assert(text@.subrange(start as int, i as int).push(c) =~= text@.subrange(
                        start as int,
                        i + 1,
                    ));
                }
            }
            if c == '\n' {
                sofar = accept(sofar, text.substring_char(start, i));
                start = i + 1;
            }
            i = i + 1;
        }
        assert(text@.take(i as int) =~= text@);
        sofar = accept(sofar, text.substring_char(start, len));
        match sofar {
            Some(manifest) => {
                if names::are_distinct(&manifest.packages) {
                    Ok(manifest)
                } else {
                    Err(ErrorKind::ValidationError)
                }
            },
            None => Err(ErrorKind::ValidationError),
        }
    }
}

} // verus!

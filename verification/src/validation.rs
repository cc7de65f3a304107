//! Validation of the platform rule set and of user input: name collisions,
//! empty build-folder lists, duplicate values, unsupported filter values and
//! path checks. A malformed rule set is a hard stop for the callers; the
//! exact diagnostic text is built here.

use vstd::prelude::*;
use vstd::string::StrSliceExecFns;
use vstd::string::StringExecFns;

use crate::filter::Filter;
use crate::platform::Platform;
use crate::selection::Selection;
use crate::text::{eq_ignore_case, lower, trim, trim_str};

verus! {

/// Whether the sequence holds a space character.
pub open spec fn has_space(s: Seq<char>) -> bool {
    exists|i: int| 0 <= i < s.len() && s[i] == ' '
}

/// Whether all values are pairwise distinct, ignoring ASCII case.
pub open spec fn unique_values_ci(values: Seq<String>) -> bool {
    forall|i: int, j: int|
        0 <= i < j < values.len() ==> #[trigger] lower(values[i]@) != #[trigger] lower(values[j]@)
}

/// Whether all pattern texts are pairwise distinct, ignoring ASCII case.
pub open spec fn unique_patterns_ci(values: Seq<Filter>) -> bool {
    forall|i: int, j: int|
        0 <= i < j < values.len() ==> #[trigger] lower(values[i]@) != #[trigger] lower(values[j]@)
}

/// Whether some platform's name holds a space.
pub open spec fn some_name_with_space(platforms: Seq<Platform>) -> bool {
    exists|i: int| 0 <= i < platforms.len() && has_space(#[trigger] platforms[i].name@)
}

/// Whether the platform names are pairwise distinct, ignoring ASCII case.
pub open spec fn names_unique_ci(platforms: Seq<Platform>) -> bool {
    forall|i: int, j: int|
        0 <= i < j < platforms.len() ==> #[trigger] lower(platforms[i].name@) != #[trigger] lower(
            platforms[j].name@,
        )
}

/// Whether some platform lists no build folder at all.
pub open spec fn some_without_folders(platforms: Seq<Platform>) -> bool {
    exists|i: int| 0 <= i < platforms.len() && (#[trigger] platforms[i].folders@).len() == 0
}

/// Whether some platform repeats a build folder name.
pub open spec fn some_folders_not_unique(platforms: Seq<Platform>) -> bool {
    exists|i: int| 0 <= i < platforms.len() && !unique_values_ci(#[trigger] platforms[i].folders@)
}

/// Whether some platform repeats an associated pattern.
pub open spec fn some_associated_not_unique(platforms: Seq<Platform>) -> bool {
    exists|i: int|
        0 <= i < platforms.len() && !unique_patterns_ci(#[trigger] platforms[i].associated@)
}

/// The diagnostic line about platform names, empty when nothing is wrong.
pub open spec fn names_line(spaces: bool, dups: bool) -> Seq<char> {
    if !spaces && !dups {
        Seq::empty()
    } else {
        "* Platform names "@ + (if spaces {
            "can not contain spaces"@
        } else {
            Seq::empty()
        }) + (if dups {
            (if spaces {
                " and "@
            } else {
                Seq::<char>::empty()
            }) + "must be unique"@
        } else {
            Seq::empty()
        })
    }
}

/// The diagnostic line about build folders, empty when nothing is wrong.
pub open spec fn folders_line(none: bool, dups: bool) -> Seq<char> {
    if !none && !dups {
        Seq::empty()
    } else {
        "* Platform build artifacts "@ + (if none {
            "require at lease one value"@
        } else {
            Seq::empty()
        }) + (if dups {
            (if none {
                " and "@
            } else {
                Seq::<char>::empty()
            }) + "must be unique"@
        } else {
            Seq::empty()
        })
    }
}

/// The diagnostic line about associated patterns, empty when nothing is
/// wrong.
pub open spec fn associated_line(dups: bool) -> Seq<char> {
    if dups {
        "* Platform associated files and folders must be unique"@
    } else {
        Seq::empty()
    }
}

/// The whole diagnostic: the three lines that apply, joined by line breaks.
pub open spec fn validation_message(
    spaces: bool,
    name_dups: bool,
    no_folders: bool,
    folder_dups: bool,
    associated_dups: bool,
) -> Seq<char> {
    let first = names_line(spaces, name_dups);
    let second = if no_folders || folder_dups {
        (if first.len() > 0 {
            first + seq!['\n']
        } else {
            first
        }) + folders_line(no_folders, folder_dups)
    } else {
        first
    };
    if associated_dups {
        (if second.len() > 0 {
            second + seq!['\n']
        } else {
            second
        }) + associated_line(associated_dups)
    } else {
        second
    }
}

/// Validates a single platform: its name has no spaces and it lists at
/// least one build folder.
pub fn validate_platform(platform: &Platform) -> (r: bool)
    ensures
        r == (!has_space(platform.name@) && platform.folders@.len() > 0),
{
    !contains_space(platform.name.as_str()) && platform.folders.len() > 0
}

/// Whether the string holds a space character.
fn contains_space(s: &str) -> (r: bool)
    ensures
        r == has_space(s@),
{
    let n = s.unicode_len();
    let mut i: usize = 0;
    while i < n
        invariant
            i <= n,
            n == s@.len(),
            forall|k: int| 0 <= k < i ==> s@[k] != ' ',
        decreases n - i,
    {
        if s.get_char(i) == ' ' {
            return true;
        }
        i = i + 1;
    }
    false
}

/// Validates all values in a list are unique by their case-insensitive
/// string value.
pub fn validate_unique_values(values: &Vec<String>) -> (r: bool)
    ensures
        r == unique_values_ci(values@),
{
    let mut i: usize = 0;
    while i < values.len()
        invariant
            i <= values@.len(),
            forall|x: int, y: int|
                0 <= x < y < i ==> #[trigger] lower(values@[x]@) != #[trigger] lower(values@[y]@),
        decreases values@.len() - i,
    {
        let mut j: usize = 0;
        while j < i
            invariant
                j <= i < values@.len(),
                forall|y: int| 0 <= y < j ==> #[trigger] lower(values@[y]@) != lower(
                    values@[i as int]@,
                ),
            decreases i - j,
        {
            if eq_ignore_case(values[j].as_str(), values[i].as_str()) {
                return false;
            }
            j = j + 1;
        }
        i = i + 1;
    }
    true
}

/// Validates all pattern texts in a list are unique by their
/// case-insensitive string value.
pub fn validate_unique_patterns(values: &Vec<Filter>) -> (r: bool)
    ensures
        r == unique_patterns_ci(values@),
{
    let mut i: usize = 0;
    while i < values.len()
        invariant
            i <= values@.len(),
            forall|x: int, y: int|
                0 <= x < y < i ==> #[trigger] lower(values@[x]@) != #[trigger] lower(values@[y]@),
        decreases values@.len() - i,
    {
        let mut j: usize = 0;
        while j < i
            invariant
                j <= i < values@.len(),
                forall|y: int| 0 <= y < j ==> #[trigger] lower(values@[y]@) != lower(
                    values@[i as int]@,
                ),
            decreases i - j,
        {
            if eq_ignore_case(values[j].text(), values[i].text()) {
                return false;
            }
            j = j + 1;
        }
        i = i + 1;
    }
    true
}

/// Validates all platforms: reports names with spaces, duplicate names,
/// missing build folders, duplicate build folders and duplicate associated
/// patterns, or nothing when the rule set is sound.
#[verifier::rlimit(60)]
pub fn validate_platforms(platforms: &Vec<Platform>) -> (r: Option<String>)
    ensures
        r is None <==> (!some_name_with_space(platforms@) && names_unique_ci(platforms@)
            && !some_without_folders(platforms@) && !some_folders_not_unique(platforms@)
            && !some_associated_not_unique(platforms@)),
        r matches Some(message) ==> message@ == validation_message(
            some_name_with_space(platforms@),
            !names_unique_ci(platforms@),
            some_without_folders(platforms@),
            some_folders_not_unique(platforms@),
            some_associated_not_unique(platforms@),
        ),
{
    let spaces = any_name_with_space(platforms);
    let name_dups = !platform_names_unique(platforms);
    let no_folders = any_without_folders(platforms);
    let folder_dups = any_folders_not_unique(platforms);
    let associated_dups = any_associated_not_unique(platforms);
    if !spaces && !name_dups && !no_folders && !folder_dups && !associated_dups {
        return None;
    }
    let mut message = String::new();
    if spaces || name_dups {
        message.append("* Platform names ");
        if spaces {
            message.append("can not contain spaces");
        }
        if name_dups {
            if spaces {
                message.append(" and ");
            }
            message.append("must be unique");
        }
    }
    proof {
        assert(message@ =~= names_line(spaces, name_dups));
    }
    if no_folders || folder_dups {
        if !message.as_str().is_empty() {
            message.append("\n");
            proof {
                reveal_strlit("\n");
                assert(message@ =~= names_line(spaces, name_dups) + seq!['\n']);
            }
        }
        message.append("* Platform build artifacts ");
        if no_folders {
            message.append("require at lease one value");
        }
        if folder_dups {
            if no_folders {
                message.append(" and ");
            }
            message.append("must be unique");
        }
    }
    let ghost second = validation_message_second(spaces, name_dups, no_folders, folder_dups);
    proof {
        assert(message@ =~= second);
    }
    if associated_dups {
        if !message.as_str().is_empty() {
            message.append("\n");
            proof {
                reveal_strlit("\n");
                assert(message@ =~= second + seq!['\n']);
            }
        }
        message.append("* Platform associated files and folders must be unique");
    }
    proof {
        assert(message@ =~= validation_message(
            spaces,
            name_dups,
            no_folders,
            folder_dups,
            associated_dups,
        ));
    }
    Some(message)
}

/// The first two lines of the diagnostic, joined.
pub open spec fn validation_message_second(
    spaces: bool,
    name_dups: bool,
    no_folders: bool,
    folder_dups: bool,
) -> Seq<char> {
    let first = names_line(spaces, name_dups);
    if no_folders || folder_dups {
        (if first.len() > 0 {
            first + seq!['\n']
        } else {
            first
        }) + folders_line(no_folders, folder_dups)
    } else {
        first
    }
}

/// Whether some platform's name holds a space.
fn any_name_with_space(platforms: &Vec<Platform>) -> (r: bool)
    ensures
        r == some_name_with_space(platforms@),
{
    let mut i: usize = 0;
    while i < platforms.len()
        invariant
            i <= platforms@.len(),
            forall|k: int| 0 <= k < i ==> !has_space(#[trigger] platforms@[k].name@),
        decreases platforms@.len() - i,
    {
        if contains_space(platforms[i].name.as_str()) {
            return true;
        }
        i = i + 1;
    }
    false
}

/// Whether the platform names are pairwise distinct, ignoring ASCII case.
fn platform_names_unique(platforms: &Vec<Platform>) -> (r: bool)
    ensures
        r == names_unique_ci(platforms@),
{
    let mut i: usize = 0;
    while i < platforms.len()
        invariant
            i <= platforms@.len(),
            forall|x: int, y: int|
                0 <= x < y < i ==> #[trigger] lower(platforms@[x].name@) != #[trigger] lower(
                    platforms@[y].name@,
                ),
        decreases platforms@.len() - i,
    {
        let mut j: usize = 0;
        while j < i
            invariant
                j <= i < platforms@.len(),
                forall|y: int|
                    0 <= y < j ==> #[trigger] lower(platforms@[y].name@) != lower(
                        platforms@[i as int].name@,
                    ),
            decreases i - j,
        {
            if eq_ignore_case(platforms[j].name.as_str(), platforms[i].name.as_str()) {
                return false;
            }
            j = j + 1;
        }
        i = i + 1;
    }
    true
}

/// Whether some platform lists no build folder.
fn any_without_folders(platforms: &Vec<Platform>) -> (r: bool)
    ensures
        r == some_without_folders(platforms@),
{
    let mut i: usize = 0;
    while i < platforms.len()
        invariant
            i <= platforms@.len(),
            forall|k: int| 0 <= k < i ==> (#[trigger] platforms@[k].folders@).len() != 0,
        decreases platforms@.len() - i,
    {
        if platforms[i].folders.len() == 0 {
            return true;
        }
        i = i + 1;
    }
    false
}

/// Whether some platform repeats a build folder name.
fn any_folders_not_unique(platforms: &Vec<Platform>) -> (r: bool)
    ensures
        r == some_folders_not_unique(platforms@),
{
    let mut i: usize = 0;
    while i < platforms.len()
        invariant
            i <= platforms@.len(),
            forall|k: int| 0 <= k < i ==> unique_values_ci(#[trigger] platforms@[k].folders@),
        decreases platforms@.len() - i,
    {
        if !validate_unique_values(&platforms[i].folders) {
            return true;
        }
        i = i + 1;
    }
    false
}

/// Whether some platform repeats an associated pattern.
fn any_associated_not_unique(platforms: &Vec<Platform>) -> (r: bool)
    ensures
        r == some_associated_not_unique(platforms@),
{
    let mut i: usize = 0;
    while i < platforms.len()
        invariant
            i <= platforms@.len(),
            forall|k: int| 0 <= k < i ==> unique_patterns_ci(#[trigger] platforms@[k].associated@),
        decreases platforms@.len() - i,
    {
        if !validate_unique_patterns(&platforms[i].associated) {
            return true;
        }
        i = i + 1;
    }
    false
}

/// Whether some configured platform carries this name, ignoring ASCII case.
pub open spec fn platform_named(platforms: Seq<Platform>, v: Seq<char>) -> bool {
    exists|i: int|
        0 <= i < platforms.len() && lower(#[trigger] platforms[i].name@) == lower(v)
}

/// The filter values from index `i` on that name no configured platform.
pub open spec fn unsupported_from(values: Seq<String>, platforms: Seq<Platform>, i: int) -> Seq<
    Seq<char>,
>
    decreases values.len() - i,
{
    if i < 0 || i >= values.len() {
        Seq::empty()
    } else {
        (if platform_named(platforms, values[i]@) {
            Seq::empty()
        } else {
            seq![values[i]@]
        }) + unsupported_from(values, platforms, i + 1)
    }
}

/// Validates the platform filter: returns the requested values that name no
/// configured platform, in order. `All` requests nothing unsupported.
pub fn validate_platforms_filter(filter: &Selection, platforms: &Vec<Platform>) -> (r: Vec<String>)
    ensures
        filter is All ==> r@.len() == 0,
        filter matches Selection::Select { values } ==> r.deep_view() == unsupported_from(
            values@,
            platforms@,
            0,
        ),
{
    match filter {
        Selection::All => Vec::new(),
        Selection::Select { values } => {
            let ghost all = unsupported_from(values@, platforms@, 0);
            let mut out: Vec<String> = Vec::new();
            let mut i: usize = 0;
            while i < values.len()
                invariant
                    i <= values@.len(),
                    all == unsupported_from(values@, platforms@, 0),
                    out.deep_view() + unsupported_from(values@, platforms@, i as int) == all,
                decreases values@.len() - i,
            {
                let ghost old_out = out.deep_view();
                if !some_platform_named(platforms, values[i].as_str()) {
                    out.push(values[i].clone());
                    proof {
                        assert(out.deep_view() =~~= old_out + seq![values@[i as int]@]);
                    }
                }
                proof {
                    assert(out.deep_view() + unsupported_from(values@, platforms@, i + 1) =~~= all);
                }
                i = i + 1;
            }
            out
        },
    }
}

/// Whether some configured platform carries this name, ignoring ASCII case.
fn some_platform_named(platforms: &Vec<Platform>, v: &str) -> (r: bool)
    ensures
        r == platform_named(platforms@, v@),
{
    let mut i: usize = 0;
    while i < platforms.len()
        invariant
            i <= platforms@.len(),
            forall|k: int| 0 <= k < i ==> lower(#[trigger] platforms@[k].name@) != lower(v@),
        decreases platforms@.len() - i,
    {
        if eq_ignore_case(platforms[i].name.as_str(), v) {
            return true;
        }
        i = i + 1;
    }
    false
}

/// Whether at least two configured platforms carry this name, ignoring
/// ASCII case.
pub open spec fn name_duplicated(platforms: Seq<Platform>, name: Seq<char>) -> bool {
    exists|i: int, j: int|
        0 <= i < j < platforms.len() && #[trigger] lower(platforms[i].name@) == lower(name)
            && #[trigger] lower(platforms[j].name@) == lower(name)
}

/// The note shown beside a listed platform's name: duplication first, then
/// spaces, then nothing to report.
pub fn check_name_note(platforms: &Vec<Platform>, name: &str) -> (r: &'static str)
    ensures
        name_duplicated(platforms@, name@) ==> r@ == " <<= duplicate platform name"@,
        (!name_duplicated(platforms@, name@) && has_space(name@)) ==> r@
            == " <<= name contains space(s)"@,
        (!name_duplicated(platforms@, name@) && !has_space(name@)) ==> r@
            == Seq::<char>::empty(),
{
    let platform_count = platforms.len();
    proof {
        assert(platform_count == platforms@.len());
    }
    let duplicated: bool = match first_named(platforms, name, 0) {
        Some(first) => {
            match first_named(platforms, name, first + 1) {
                Some(_) => true,
                None => {
                    proof {
                        assert(!name_duplicated(platforms@, name@)) by {
                            if name_duplicated(platforms@, name@) {
                                let (i, j): (int, int) = choose|i: int, j: int|
                                    0 <= i < j < platforms@.len() && #[trigger] lower(
                                        platforms@[i].name@,
                                    ) == lower(name@) && #[trigger] lower(platforms@[j].name@)
                                        == lower(name@);
                                assert(i >= first && j >= first);
                                assert(j > first);
                            }
                        }
                    }
                    false
                },
            }
        },
        None => {
            proof {
                assert(!name_duplicated(platforms@, name@)) by {
                    if name_duplicated(platforms@, name@) {
                        let (i, j): (int, int) = choose|i: int, j: int|
                            0 <= i < j < platforms@.len() && #[trigger] lower(platforms@[i].name@)
                                == lower(name@) && #[trigger] lower(platforms@[j].name@) == lower(
                                name@,
                            );
                        assert(false);
                    }
                }
            }
            false
        },
    };
    if duplicated {
        let note = " <<= duplicate platform name";
        note
    } else if contains_space(name) {
        let note = " <<= name contains space(s)";
        note
    } else {
        let note = "";
        proof {
            reveal_strlit("");
            assert(note@ =~= Seq::<char>::empty());
        }
        note
    }
}

/// The index of the first platform from `from` on whose name equals `name`,
/// ignoring ASCII case.
fn first_named(platforms: &Vec<Platform>, name: &str, from: usize) -> (r: Option<usize>)
    ensures
        r matches Some(idx) ==> from <= idx < platforms@.len() && lower(platforms@[idx as int].name@)
            == lower(name@) && (forall|k: int|
            from <= k < idx ==> lower(#[trigger] platforms@[k].name@) != lower(name@)),
        r is None ==> forall|k: int|
            from <= k < platforms@.len() ==> lower(#[trigger] platforms@[k].name@) != lower(name@),
{
    let mut i: usize = from;
    while i < platforms.len()
        invariant
            from <= i,
            i <= platforms@.len() || i == from,
            forall|k: int| from <= k < i ==> lower(#[trigger] platforms@[k].name@) != lower(name@),
        decreases platforms@.len() - i,
    {
        if eq_ignore_case(platforms[i].name.as_str(), name) {
            return Some(i);
        }
        i = i + 1;
    }
    None
}

/// The note shown beside a platform's build folders: missing first, then
/// duplicated, then nothing to report.
pub fn check_folders_note(folders: &Vec<String>) -> (r: &'static str)
    ensures
        folders@.len() == 0 ==> r@ == " <<= requires a build artifact"@,
        (folders@.len() > 0 && !unique_values_ci(folders@)) ==> r@
            == " <<= build artifacts need to be unique"@,
        (folders@.len() > 0 && unique_values_ci(folders@)) ==> r@ == Seq::<char>::empty(),
{
    if folders.len() == 0 {
        " <<= requires a build artifact"
    } else if !validate_unique_values(folders) {
        " <<= build artifacts need to be unique"
    } else {
        let note = "";
        proof {
            reveal_strlit("");
            assert(note@ =~= Seq::<char>::empty());
        }
        note
    }
}

/// The note shown beside a platform's associated patterns: duplicated, or
/// nothing to report.
pub fn check_associated_note(associated: &Vec<Filter>) -> (r: &'static str)
    ensures
        !unique_patterns_ci(associated@) ==> r@ == " <<= associated files & folders need to be unique"@,
        unique_patterns_ci(associated@) ==> r@ == Seq::<char>::empty(),
{
    if !validate_unique_patterns(associated) {
        " <<= associated files & folders need to be unique"
    } else {
        let note = "";
        proof {
            reveal_strlit("");
            assert(note@ =~= Seq::<char>::empty());
        }
        note
    }
}

/// The complaint about a path, or nothing: a path that does not exist, then
/// a path that is a regular file, is refused.
pub fn validate_path(present: bool, is_file: bool, path: &str) -> (r: Option<String>)
    ensures
        !present ==> (r matches Some(m) && m@ == "path: \""@ + path@ + "\" - does not exist!\n"@),
        (present && is_file) ==> (r matches Some(m) && m@ == "path: \""@ + path@
            + "\" - is not directory!\n"@),
        (present && !is_file) ==> r is None,
{
    if !present {
        let mut m = String::from_str("path: \"");
        m.append(path);
        m.append("\" - does not exist!\n");
        Some(m)
    } else if is_file {
        let mut m = String::from_str("path: \"");
        m.append(path);
        m.append("\" - is not directory!\n");
        Some(m)
    } else {
        None
    }
}

/// Validates a value does not contain spaces.
pub fn validate_no_spaces(value: &str) -> (r: Result<(), String>)
    ensures
        r is Err <==> has_space(value@),
        r matches Err(m) ==> m@ == "Can not contain spaces"@,
{
    if contains_space(value) {
        Err(String::from_str("Can not contain spaces"))
    } else {
        Ok(())
    }
}

/// Validates a value is not empty or blanks only.
pub fn validate_not_blank(value: &str) -> (r: Result<(), String>)
    ensures
        r is Err <==> trim(value@).len() == 0,
        r matches Err(m) ==> m@ == "Can not be blank"@,
{
    let trimmed = trim_str(value);
    if trimmed.as_str().is_empty() {
        Err(String::from_str("Can not be blank"))
    } else {
        Ok(())
    }
}

/// Validates a value is unique in a collection of values, ignoring ASCII
/// case; the complaint names the value and what it would duplicate.
pub fn validate_unique(checked: &Vec<String>, what: &str, value: &str) -> (r: Result<(), String>)
    ensures
        r is Err <==> exists|i: int|
            0 <= i < checked@.len() && lower(#[trigger] checked@[i]@) == lower(value@),
        r matches Err(m) ==> m@ == seq!['"'] + value@ + seq!['"'] + " already exists, "@ + what@
            + " values must be unique"@,
{
    let mut i: usize = 0;
    while i < checked.len()
        invariant
            i <= checked@.len(),
            forall|k: int| 0 <= k < i ==> lower(#[trigger] checked@[k]@) != lower(value@),
        decreases checked@.len() - i,
    {
        if eq_ignore_case(checked[i].as_str(), value) {
            let mut m = String::from_str("\"");
            m.append(value);
            m.append("\"");
            m.append(" already exists, ");
            m.append(what);
            m.append(" values must be unique");
            proof {
                reveal_strlit("\"");
                assert(m@ =~= seq!['"'] + value@ + seq!['"'] + " already exists, "@ + what@
                    + " values must be unique"@);
            }
            return Err(m);
        }
        i = i + 1;
    }
    Ok(())
}

} // verus!

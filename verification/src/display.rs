//! Output formatting that the commands share: readable comma lists, aligned
//! artifact labels and paths shown relative to the scanned root.

use vstd::prelude::*;
use vstd::string::StrSliceExecFns;
use vstd::string::StringExecFns;

use crate::platform::Platform;

verus! {

/// The items joined with `", "` between them.
pub open spec fn join_sep(items: Seq<Seq<char>>) -> Seq<char>
    decreases items.len(),
{
    if items.len() == 0 {
        Seq::empty()
    } else if items.len() == 1 {
        items[0]
    } else {
        join_sep(items.drop_last()) + ", "@ + items.last()
    }
}

/// The readable form of a list: all items joined with `", "`, except that the
/// last is joined with `" & "` when anything precedes it.
pub open spec fn list_output_spec(items: Seq<Seq<char>>) -> Seq<char> {
    if items.len() == 0 {
        Seq::empty()
    } else if items.len() == 1 {
        items[0]
    } else {
        let front = join_sep(items.drop_last());
        if front.len() == 0 {
            items.last()
        } else {
            front + " & "@ + items.last()
        }
    }
}

/// Creates an easier to read comma separated output from a list.
pub fn list_output(source: &Vec<String>) -> (r: String)
    ensures
        r@ == list_output_spec(source.deep_view()),
{
    let n = source.len();
    let mut out = String::new();
    if n == 0 {
        return out;
    }
    let mut i: usize = 0;
    while i < n - 1
        invariant
            i <= n - 1,
            n >= 1,
            n == source@.len(),
            out@ == join_sep(source.deep_view().take(i as int)),
        decreases n - 1 - i,
    {
        if i > 0 {
            out.append(", ");
        }
        out.append(source[i].as_str());
        i = i + 1;
        proof {
            let taken = source.deep_view().take(i as int);
            assert(taken.drop_last() =~= source.deep_view().take(i - 1));
            assert(taken.last() == source@[i - 1]@);
        }
    }
    proof {
        assert(source.deep_view().take(n - 1) =~= source.deep_view().drop_last());
    }
    if !out.as_str().is_empty() {
        out.append(" & ");
    }
    out.append(source[n - 1].as_str());
    proof {
        assert(source.deep_view().last() == source@[n - 1]@);
        if n == 1 {
            assert(source.deep_view().drop_last().len() == 0);
        }
    }
    out
}

/// `n` spaces.
pub open spec fn spaces(n: int) -> Seq<char> {
    Seq::new(if n < 0 {
        0
    } else {
        n as nat
    }, |i: int| ' ')
}

/// `s` padded on the right with spaces to width `w`.
pub open spec fn pad_right(s: Seq<char>, w: int) -> Seq<char> {
    s + spaces(w - s.len())
}

/// One listed artifact: the platform name padded to the widest name, in
/// brackets, then the folder path relative to the scanned root.
pub fn artifact_label(name: &str, width: usize, relative: &str) -> (r: String)
    ensures
        r@ == "["@ + pad_right(name@, width as int) + "] "@ + relative@,
{
    let mut out = String::from_str("[");
    out.append(name);
    proof {
        assert(spaces(0) =~= Seq::<char>::empty());
        assert(out@ =~= "["@ + name@ + spaces(0));
    }
    let n = name.unicode_len();
    let mut i: usize = n;
    while i < width
        invariant
            out@ == "["@ + name@ + spaces(i - n as int),
            n == name@.len(),
            i >= n,
            i <= width || i == n,
        decreases width - i,
    {
        out.append(" ");
        i = i + 1;
        proof {
            reveal_strlit(" ");
            assert(spaces(i - n as int) =~= spaces(i - 1 - n as int) + " "@);
            assert(out@ =~= "["@ + name@ + spaces(i - n as int));
        }
    }
    proof {
        if (n as int) >= width as int {
            assert(spaces(width - n as int) =~= Seq::<char>::empty());
            assert(name@ + spaces(width - n as int) =~= name@);
        } else {
            assert(spaces(i - n as int) == spaces(width - n as int));
        }
        assert(pad_right(name@, width as int) =~= name@ + spaces(width - n as int));
    }
    out.append("] ");
    out.append(relative);
    proof {
        assert(out@ =~= "["@ + pad_right(name@, width as int) + "] "@ + relative@);
    }
    out
}

/// The part of `path` below `root`: the root prefix and the separator after
/// it are cut off. When `root` already ends in the separator no extra
/// character is cut.
pub fn relative_path(path: &str, root: &str) -> (r: String)
    requires
        root@.len() + strip_offset(root@) <= path@.len(),
    ensures
        r@ == path@.skip(root@.len() + strip_offset(root@)),
{
    let rn = root.unicode_len();
    let pn = path.unicode_len();
    let offset: usize = if rn > 0 && root.get_char(rn - 1) == '/' {
        0
    } else {
        1
    };
    path.substring_char(rn + offset, pn).to_owned()
}

/// How many characters past the root's length the relative display starts:
/// none when the root ends in the separator, one otherwise.
pub open spec fn strip_offset(root: Seq<char>) -> int {
    if root.len() > 0 && root[root.len() - 1] == '/' {
        0
    } else {
        1
    }
}

/// The greatest character length of any platform name in the list.
pub open spec fn max_name_len(platforms: Seq<Platform>) -> int
    decreases platforms.len(),
{
    if platforms.len() == 0 {
        0
    } else {
        let rest = max_name_len(platforms.drop_last());
        if platforms.last().name@.len() > rest {
            platforms.last().name@.len() as int
        } else {
            rest
        }
    }
}

/// The widest platform name, used to align listed artifacts.
pub fn max_name_width(platforms: &Vec<Platform>) -> (r: usize)
    ensures
        r == max_name_len(platforms@),
{
    let mut width: usize = 0;
    let mut i: usize = 0;
    while i < platforms.len()
        invariant
            i <= platforms@.len(),
            width == max_name_len(platforms@.take(i as int)),
        decreases platforms@.len() - i,
    {
        let n = platforms[i].name.unicode_len();
        if n > width {
            width = n;
        }
        i = i + 1;
        proof {
            let taken = platforms@.take(i as int);
            assert(taken.drop_last() =~= platforms@.take(i - 1));
            assert(taken.last() == platforms@[i - 1]);
        }
    }
    proof {
        assert(platforms@.take(platforms@.len() as int) =~= platforms@);
    }
    width
}

/// The names of the platforms, in order.
pub fn platform_names(platforms: &Vec<Platform>) -> (r: Vec<String>)
    ensures
        r.deep_view() == platforms@.map_values(|p: Platform| p.name@),
{
    let mut names: Vec<String> = Vec::new();
    let mut i: usize = 0;
    while i < platforms.len()
        invariant
            i <= platforms@.len(),
            names@.len() == i,
            forall|k: int| 0 <= k < i ==> names@[k]@ == platforms@[k].name@,
        decreases platforms@.len() - i,
    {
        names.push(platforms[i].name.clone());
        i = i + 1;
    }
    proof {
        assert(names.deep_view() =~= platforms@.map_values(|p: Platform| p.name@));
    }
    names
}

} // verus!

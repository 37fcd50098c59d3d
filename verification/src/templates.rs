//! The templates that stand beside the executable: where they are, what
//! they are called, and how their names are read off a directory listing.

use vstd::prelude::*;
use vstd::string::*;
use crate::config::{text_result, Catalog, CatalogView};
use crate::paths::{join, joined};
use crate::text::framed;

verus! {

/// Name of the directory that holds the three template folders.
pub const TEMPLATES: &'static str = "templates";

/// Folder of the flake templates.
pub const FLAKES: &'static str = "flakes";

/// Extension of the flake templates.
pub const FLAKE_EXT: &'static str = "nix";

/// Folder of the license templates.
pub const LICENSES: &'static str = "licenses";

/// Extension of the license templates.
pub const LICENSE_EXT: &'static str = "md";

/// Folder of the setup scripts.
pub const SCRIPTS: &'static str = "scripts";

/// Extension of the setup scripts.
pub const SCRIPT_EXT: &'static str = "sh";

/// One entry of a directory listing, as the file system reported it.
#[derive(Debug, Clone, PartialEq, Eq)]
pub enum Entry {
    /// An entry with its file name.
    Named(String),
    /// An entry whose file name is not valid text; what is held is a
    /// rendering of it for messages.
    Unnamed(String),
    /// An entry that could not be read, with the reason.
    Unreadable(String),
}

/// An entry, with its text as a sequence of characters.
pub enum EntryView {
    Named(Seq<char>),
    Unnamed(Seq<char>),
    Unreadable(Seq<char>),
}

impl View for Entry {
    type V = EntryView;

    open spec fn view(&self) -> EntryView {
        match self {
            Entry::Named(name) => EntryView::Named(name@),
            Entry::Unnamed(shown) => EntryView::Unnamed(shown@),
            Entry::Unreadable(reason) => EntryView::Unreadable(reason@),
        }
    }
}

/// The views of a listing's entries.
pub open spec fn entry_views(entries: Seq<Entry>) -> Seq<EntryView> {
    entries.map_values(|e: Entry| e@)
}

/// A listing as a whole, by the views of its two sides.
pub open spec fn listing_view(listing: Result<Vec<Entry>, String>) -> Result<
    Seq<EntryView>,
    Seq<char>,
> {
    match listing {
        Ok(entries) => Ok(entry_views(entries@)),
        Err(reason) => Err(reason@),
    }
}

/// Whether `name` can be the name of a file in a directory: it is not
/// empty, holds no separator, and is neither `.` nor `..`.
pub open spec fn is_file_name(name: Seq<char>) -> bool {
    &&& name.len() > 0
    &&& !name.contains('/')
    &&& name != seq!['.']
    &&& name != seq!['.', '.']
}

/// A file name without its extension: what stands before the last dot,
/// unless that dot is the name's first character or there is none.
pub open spec fn stem_of(name: Seq<char>) -> Seq<char> {
    match name.index_of_last('.') {
        Some(i) => if i > 0 {
            name.take(i)
        } else {
            name
        },
        None => name,
    }
}

/// The complaint about an entry that is no file name.
pub open spec fn no_stem_message(path: Seq<char>) -> Seq<char> {
    "no file stem for path `"@ + path + "`"@
}

/// The complaint about an entry whose name is no valid text.
pub open spec fn weird_path_message(path: Seq<char>) -> Seq<char> {
    "weird path `"@ + path + "`"@
}

/// The complaint about a template directory that is not there.
pub open spec fn missing_dir_message(path: Seq<char>) -> Seq<char> {
    "template dir `"@ + path + "` does not exist"@
}

/// The template name that one entry of the directory `dir` stands for, or
/// the error that it raises.
pub open spec fn entry_value(dir: Seq<char>, entry: EntryView) -> Result<Seq<char>, Seq<char>> {
    match entry {
        EntryView::Unreadable(reason) => Err(reason),
        EntryView::Unnamed(shown) => Err(weird_path_message(joined(dir, shown))),
        EntryView::Named(name) => if is_file_name(name) {
            Ok(stem_of(name))
        } else {
            Err(no_stem_message(joined(dir, name)))
        },
    }
}

/// The template names that a listing of `dir` stands for, in the listing's
/// order, or the error of the first entry that raises one.
pub open spec fn listed_values(dir: Seq<char>, entries: Seq<EntryView>) -> Result<
    Seq<Seq<char>>,
    Seq<char>,
>
    decreases entries.len(),
{
    if entries.len() == 0 {
        Ok(Seq::empty())
    } else {
        match listed_values(dir, entries.drop_last()) {
            Err(e) => Err(e),
            Ok(values) => match entry_value(dir, entries.last()) {
                Err(e) => Err(e),
                Ok(value) => Ok(values.push(value)),
            },
        }
    }
}

/// What discovery in one folder gives: the listing's error where the
/// folder could not be listed, else the names that its entries stand for.
pub open spec fn discovered(
    template_dir: Seq<char>,
    subdir_name: Seq<char>,
    listing: Result<Seq<EntryView>, Seq<char>>,
) -> Result<Seq<Seq<char>>, Seq<char>> {
    match listing {
        Err(reason) => Err(reason),
        Ok(entries) => listed_values(joined(template_dir, subdir_name), entries),
    }
}

/// What discovery in all three folders gives: the catalog of the names
/// found, or the first error, the folders taken in the order flakes,
/// scripts, licenses.
pub open spec fn catalog_of(
    template_dir: Seq<char>,
    flakes: Result<Seq<EntryView>, Seq<char>>,
    scripts: Result<Seq<EntryView>, Seq<char>>,
    licenses: Result<Seq<EntryView>, Seq<char>>,
) -> Result<CatalogView, Seq<char>> {
    match discovered(template_dir, FLAKES@, flakes) {
        Err(e) => Err(e),
        Ok(flakes) => match discovered(template_dir, SCRIPTS@, scripts) {
            Err(e) => Err(e),
            Ok(scripts) => match discovered(template_dir, LICENSES@, licenses) {
                Err(e) => Err(e),
                Ok(licenses) => Ok(CatalogView { flakes, scripts, licenses }),
            },
        },
    }
}

/// A catalog or an error, by the views of the two sides.
pub open spec fn catalog_result(r: Result<Catalog, String>) -> Result<CatalogView, Seq<char>> {
    match r {
        Ok(catalog) => Ok(catalog@),
        Err(e) => Err(e@),
    }
}

/// The path of the template `name` in the folder `subdir`, with the
/// extension `ext` behind a dot; without a dot where `ext` is empty.
pub open spec fn template_file(
    template_dir: Seq<char>,
    subdir: Seq<char>,
    name: Seq<char>,
    ext: Seq<char>,
) -> Seq<char> {
    let bare = joined(joined(template_dir, subdir), name);
    if ext.len() == 0 {
        bare
    } else {
        bare + seq!['.'] + ext
    }
}

/// The path of the setup script `name`.
pub open spec fn script_file(template_dir: Seq<char>, name: Seq<char>) -> Seq<char> {
    template_file(template_dir, SCRIPTS@, name, SCRIPT_EXT@)
}

/// A listing gives names exactly when each of its entries does, one name
/// for each entry and in the same order; else it gives the error of the
/// first entry that has none.
pub proof fn law_listed_values(dir: Seq<char>, entries: Seq<EntryView>)
    ensures
        match listed_values(dir, entries) {
            Ok(values) => {
                &&& values.len() == entries.len()
                &&& forall|i: int|
                    0 <= i < entries.len() ==> entry_value(dir, entries[i]) == Ok::<
                        Seq<char>,
                        Seq<char>,
                    >(values[i])
            },
            Err(e) => exists|k: int|
                {
                    &&& 0 <= k < entries.len()
                    &&& #[trigger] entry_value(dir, entries[k]) == Err::<Seq<char>, Seq<char>>(e)
                    &&& forall|i: int| 0 <= i < k ==> entry_value(dir, entries[i]) is Ok
                },
        },
    decreases entries.len(),
{
    if entries.len() > 0 {
        let front = entries.drop_last();
        law_listed_values(dir, front);
        match listed_values(dir, front) {
            Err(e) => {
                let k = choose|k: int|
                    {
                        &&& 0 <= k < front.len()
                        &&& #[trigger] entry_value(dir, front[k]) == Err::<Seq<char>, Seq<char>>(e)
                        &&& forall|i: int| 0 <= i < k ==> entry_value(dir, front[i]) is Ok
                    };
                assert(entries[k] == front[k]);
                assert forall|i: int| 0 <= i < k implies entry_value(dir, entries[i]) is Ok by {
                    assert(entries[i] == front[i]);
                }
            },
            Ok(values) => {
                assert forall|i: int| 0 <= i < front.len() implies entry_value(dir, entries[i])
                    is Ok by {
                    assert(entries[i] == front[i]);
                }
                match entry_value(dir, entries.last()) {
                    Err(e) => {
                        assert(entries[entries.len() - 1] == entries.last());
                    },
                    Ok(value) => {
                        assert forall|i: int| 0 <= i < entries.len() implies entry_value(
                            dir,
                            entries[i],
                        ) == Ok::<Seq<char>, Seq<char>>(values.push(value)[i]) by {
                            if i < front.len() {
                                assert(entries[i] == front[i]);
                            }
                        }
                    },
                }
            },
        }
    }
}

/// Tells whether `name` can be the name of a file in a directory.
pub fn file_name_ok(name: &str) -> (r: bool)
    ensures
        r == is_file_name(name@),
{
    let n: usize = name.unicode_len();
    if n == 0 {
        return false;
    }
    let mut dots_only = true;
    let mut i: usize = 0;
    while i < n
        invariant
            i <= n,
            n == name@.len(),
            forall|k: int| 0 <= k < i ==> name@[k] != '/',
            dots_only <==> forall|k: int| 0 <= k < i ==> name@[k] == '.',
        decreases n - i,
    {
        let c = name.get_char(i);
        if c == '/' {
            return false;
        }
        if c != '.' {
            dots_only = false;
        }
        i += 1;
    }
    if dots_only && n <= 2 {
        assert(name@ =~= seq!['.'] || name@ =~= seq!['.', '.']);
        false
    } else {
        proof {
            if !dots_only {
                let k = choose|k: int| 0 <= k < n && name@[k] != '.';
                assert(seq!['.'][0] == '.');
                assert(seq!['.', '.'][0] == '.' && seq!['.', '.'][1] == '.');
            }
        }
        true
    }
}

/// Strips the extension from a file name.
pub fn file_stem(name: &str) -> (r: String)
    ensures
        r@ == stem_of(name@),
{
    let n: usize = name.unicode_len();
    let mut i: usize = n;
    while i > 0
        invariant
            i <= n,
            n == name@.len(),
            forall|k: int| i <= k < n ==> name@[k] != '.',
        decreases i,
    {
        if name.get_char(i - 1) == '.' {
            proof {
                name@.index_of_last_ensures('.');
                assert(name@.contains('.')) by {
                    assert(name@[i - 1] == '.');
                }
            }
            assert(name@.index_of_last('.') == Some((i - 1) as int));
            if i - 1 > 0 {
                assert(name@.take((i - 1) as int) =~= name@.subrange(0, (i - 1) as int));
                return String::from_str(name.substring_char(0, i - 1));
            } else {
                return String::from_str(name);
            }
        }
        i -= 1;
    }
    proof {
        name@.index_of_last_ensures('.');
    }
    String::from_str(name)
}

/// Reads the template names off the listing of one folder of the template
/// directory. A folder that could not be listed gives the reason as the
/// error; else the first entry that is unreadable, has no text name or is
/// no file name gives the error, and otherwise each entry gives its name
/// without the extension, in the listing's order.
pub fn template_values(
    template_dir: &str,
    subdir_name: &str,
    listing: Result<Vec<Entry>, String>,
) -> (r: Result<Vec<String>, String>)
    ensures
        match discovered(template_dir@, subdir_name@, listing_view(listing)) {
            Ok(values) => r matches Ok(found) && found.deep_view() == values,
            Err(e) => r matches Err(said) && said@ == e,
        },
{
    let entries = match listing {
        Ok(entries) => entries,
        Err(reason) => {
            return Err(reason);
        },
    };
    let dir = join(template_dir, subdir_name);
    let mut templates: Vec<String> = Vec::new();
    let mut i: usize = 0;
    assert(entry_views(entries@).take(0) =~= Seq::empty());
    assert(templates.deep_view() =~= Seq::empty());
    while i < entries.len()
        invariant
            i <= entries.len(),
            dir@ == joined(template_dir@, subdir_name@),
            listing_view(listing) == Ok::<Seq<EntryView>, Seq<char>>(entry_views(entries@)),
            listed_values(dir@, entry_views(entries@).take(i as int)) == Ok::<
                Seq<Seq<char>>,
                Seq<char>,
            >(templates.deep_view()),
        decreases entries.len() - i,
    {
        let ghost all = entry_views(entries@);
        let ghost before = templates.deep_view();
        proof {
            assert(all.take(i + 1).drop_last() =~= all.take(i as int));
            assert(all.take(i + 1).last() == entries[i as int]@);
        }
        let value = match &entries[i] {
            Entry::Unreadable(reason) => Err(reason.clone()),
            Entry::Unnamed(shown) => Err(
                framed("weird path `", join(dir.as_str(), shown.as_str()).as_str(), "`"),
            ),
            Entry::Named(name) => if file_name_ok(name.as_str()) {
                Ok(file_stem(name.as_str()))
            } else {
                Err(framed("no file stem for path `", join(dir.as_str(), name.as_str()).as_str(), "`"))
            },
        };
        assert(text_result(value) == entry_value(dir@, entries[i as int]@));
        match value {
            Err(e) => {
                proof {
                    assert(all[i as int] == entries[i as int]@);
                    lemma_listed_values_stops(dir@, all, i as int);
                }
                return Err(e);
            },
            Ok(stem) => {
                templates.push(stem);
                assert(templates.deep_view() =~= before.push(stem@));
            },
        }
        i += 1;
    }
    assert(entry_views(entries@).take(i as int) =~= entry_views(entries@));
    Ok(templates)
}

/// Reads the catalog off the listings of the three template folders.
pub fn discover(
    template_dir: &str,
    flakes: Result<Vec<Entry>, String>,
    scripts: Result<Vec<Entry>, String>,
    licenses: Result<Vec<Entry>, String>,
) -> (r: Result<Catalog, String>)
    ensures
        catalog_result(r) == catalog_of(
            template_dir@,
            listing_view(flakes),
            listing_view(scripts),
            listing_view(licenses),
        ),
{
    let flakes = match template_values(template_dir, FLAKES, flakes) {
        Ok(names) => names,
        Err(e) => {
            return Err(e);
        },
    };
    let scripts = match template_values(template_dir, SCRIPTS, scripts) {
        Ok(names) => names,
        Err(e) => {
            return Err(e);
        },
    };
    let licenses = match template_values(template_dir, LICENSES, licenses) {
        Ok(names) => names,
        Err(e) => {
            return Err(e);
        },
    };
    Ok(Catalog { flakes, scripts, licenses })
}

/// Once a front part of a listing ends in an entry that raises an error,
/// the whole listing raises that error.
proof fn lemma_listed_values_stops(dir: Seq<char>, entries: Seq<EntryView>, at: int)
    requires
        0 <= at < entries.len(),
        listed_values(dir, entries.take(at)) is Ok,
        entry_value(dir, entries[at]) is Err,
    ensures
        listed_values(dir, entries) == Err::<Seq<Seq<char>>, Seq<char>>(
            entry_value(dir, entries[at])->Err_0,
        ),
    decreases entries.len(),
{
    if at == entries.len() - 1 {
        assert(entries.drop_last() =~= entries.take(at));
    } else {
        let front = entries.drop_last();
        assert(front.take(at) =~= entries.take(at));
        assert(front[at] == entries[at]);
        lemma_listed_values_stops(dir, front, at);
    }
}

/// The path of the template `name` in the folder `subdir` of the template
/// directory, with the extension `ext`.
pub fn template_path(template_dir: &str, subdir: &str, name: &str, ext: &str) -> (r: String)
    ensures
        r@ == template_file(template_dir@, subdir@, name@, ext@),
{
    let folder = join(template_dir, subdir);
    let mut path = join(folder.as_str(), name);
    if ext.unicode_len() > 0 {
        proof {
            reveal_strlit(".");
        }
        path.append(".");
        path.append(ext);
    }
    path
}

/// The template directory that belongs to an executable in `exe_dir`.
pub fn templates_beside(exe_dir: &str) -> (r: String)
    ensures
        r@ == joined(exe_dir@, TEMPLATES@),
{
    join(exe_dir, TEMPLATES)
}

/// What locating the template directory gives: the error that finding the
/// executable raised, or a complaint where the directory is not there, or
/// the directory.
pub open spec fn located(exe_dir: Result<Seq<char>, Seq<char>>, present: bool) -> Result<
    Seq<char>,
    Seq<char>,
> {
    match exe_dir {
        Err(reason) => Err(reason),
        Ok(dir) => if present {
            Ok(joined(dir, TEMPLATES@))
        } else {
            Err(missing_dir_message(joined(dir, TEMPLATES@)))
        },
    }
}

/// Locates the template directory from the directory of the executable, or
/// the reason why that is unknown, and from whether the file system has
/// what `templates_beside` names.
pub fn get_template_dir(exe_dir: Result<String, String>, present: bool) -> (r: Result<
    String,
    String,
>)
    ensures
        text_result(r) == located(text_result(exe_dir), present),
{
    match exe_dir {
        Err(reason) => Err(reason),
        Ok(dir) => {
            let p = templates_beside(dir.as_str());
            if !present {
                Err(framed("template dir `", p.as_str(), "` does not exist"))
            } else {
                Ok(p)
            }
        },
    }
}

} // verus!

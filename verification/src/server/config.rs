//! The server's table of configuration files: the files named in its own configuration
//! and those found in the configured directories, by name.

use super::names::{has_config_extension, is_config_name};
use crate::order::{
    comes_before, lemma_lex_irreflexive, lemma_lex_total, lemma_lex_transitive, lex_lt, Named,
};
use crate::text::{chars_of, followed_by};
use vstd::prelude::*;
use vstd::string::StringExecFns;

verus! {

/// A configuration file that the server offers.
#[derive(Debug, PartialEq, Eq)]
pub struct ConfigFile {
    pub path: String,
    pub name: String,
    pub description: String,
    pub readonly: bool,
}

/// The content of a [`ConfigFile`].
pub struct ConfigFileView {
    pub path: Seq<char>,
    pub name: Seq<char>,
    pub description: Seq<char>,
    pub readonly: bool,
}

impl View for ConfigFile {
    type V = ConfigFileView;

    open spec fn view(&self) -> ConfigFileView {
        ConfigFileView {
            path: self.path@,
            name: self.name@,
            description: self.description@,
            readonly: self.readonly,
        }
    }
}

impl DeepView for ConfigFile {
    type V = ConfigFileView;

    open spec fn deep_view(&self) -> ConfigFileView {
        self@
    }
}

impl Clone for ConfigFile {
    fn clone(&self) -> (copy: Self)
        ensures
            copy@ == self@,
    {
        ConfigFile {
            path: self.path.clone(),
            name: self.name.clone(),
            description: self.description.clone(),
            readonly: self.readonly,
        }
    }
}

impl Named for ConfigFile {
    open spec fn name_text(&self) -> Seq<char> {
        self.name@
    }

    fn name(&self) -> (name: &str) {
        self.name.as_str()
    }
}

/// A directory whose files the server offers.
#[derive(Debug, PartialEq, Eq)]
pub struct ConfigDirectory {
    pub path: String,
    pub name: String,
    /// How many levels below the directory are searched.
    pub depth: usize,
    /// The extensions of the files to offer; every file where this is empty.
    pub types: Vec<String>,
    pub description: String,
    pub readonly: bool,
}

/// How deep a directory is searched where its entry does not say.
pub fn default_depth() -> (depth: usize)
    ensures
        depth == 3,
{
    3
}

/// The server's own configuration: single files and whole directories.
#[derive(Debug, PartialEq, Eq)]
pub struct Config {
    pub files: Vec<ConfigFile>,
    pub directories: Vec<ConfigDirectory>,
}

/// What a walk through a configured directory reports of one entry.
#[derive(Debug, PartialEq, Eq)]
pub struct WalkedEntry {
    /// The entry is a regular file.
    pub is_file: bool,
    /// The entry's full path.
    pub path: String,
    /// The entry's path from the walked directory on.
    pub relative_path: String,
    /// The last component of the path, where it is readable text.
    pub file_name: Option<String>,
    /// The extension of the file name, where it has one that is readable text.
    pub extension: Option<String>,
}

/// The entry is to be offered: it is a regular file, and its extension is among the
/// directory's extensions unless the directory names none.
pub open spec fn is_offered(types: Seq<Seq<char>>, entry: WalkedEntry) -> bool {
    &&& entry.is_file
    &&& types.len() > 0 ==> (entry.extension matches Some(extension) && types.contains(
        extension@,
    ))
}

/// The name under which a found file is offered: the directory's name, a slash, and
/// the file's path below the directory; for a file directly in the directory its file
/// name, or `unknown` where that is not readable text.
pub open spec fn offered_name(directory: Seq<char>, entry: WalkedEntry) -> Seq<char> {
    let below = entry.relative_path@;
    directory + "/"@ + if below.contains('/') || below.contains('\\') {
        below
    } else {
        match entry.file_name {
            Some(file_name) => file_name@,
            None => "unknown"@,
        }
    }
}

/// The file that a walked entry stands for; none where the entry is not offered.
pub open spec fn found_file_of(directory: ConfigDirectory, entry: WalkedEntry) -> Option<
    ConfigFileView,
> {
    if is_offered(directory.types.deep_view(), entry) {
        Some(
            ConfigFileView {
                path: entry.path@,
                name: offered_name(directory.name@, entry),
                description: "From directory: "@ + directory.description@,
                readonly: directory.readonly,
            },
        )
    } else {
        None
    }
}

/// Whether `text` holds the character `c`.
pub fn holds_char(text: &str, c: char) -> (found: bool)
    ensures
        found == text@.contains(c),
{
    let chars = chars_of(text);
    let mut i: usize = 0;
    while i < chars.len()
        invariant
            chars@ == text@,
            i <= chars.len(),
            forall|j: int| 0 <= j < i ==> chars[j] != c,
        decreases chars.len() - i,
    {
        if chars[i] == c {
            assert(chars@.contains(c));
            return true;
        }
        i += 1;
    }
    false
}

/// Whether `extension` is one of `types`.
pub fn lists_type(types: &Vec<String>, extension: &str) -> (found: bool)
    ensures
        found == types.deep_view().contains(extension@),
{
    let mut i: usize = 0;
    while i < types.len()
        invariant
            i <= types.len(),
            forall|j: int| 0 <= j < i ==> types[j]@ != extension@,
        decreases types.len() - i,
    {
        if *types[i].as_str() == *extension {
            assert(types.deep_view()[i as int] == extension@);
            return true;
        }
        i += 1;
    }
    assert(forall|j: int|
        0 <= j < types.len() ==> #[trigger] types.deep_view()[j] == types[j]@);
    false
}

/// The file that a walked entry of the directory stands for, if it is to be offered.
pub fn found_file(dir_config: &ConfigDirectory, entry: &WalkedEntry) -> (file: Option<ConfigFile>)
    ensures
        file.deep_view() == found_file_of(*dir_config, *entry),
{
    if !entry.is_file {
        return None;
    }
    if !dir_config.types.is_empty() {
        match &entry.extension {
            Some(extension) => {
                if !lists_type(&dir_config.types, extension.as_str()) {
                    return None;
                }
            },
            None => {
                return None;
            },
        }
    }
    let below = entry.relative_path.as_str();
    let mut display_name = followed_by(dir_config.name.as_str(), "/");
    if holds_char(below, '/') || holds_char(below, '\\') {
        display_name.append(below);
    } else {
        match &entry.file_name {
            Some(file_name) => {
                display_name.append(file_name.as_str());
            },
            None => {
                display_name.append("unknown");
            },
        }
    }
    Some(
        ConfigFile {
            path: entry.path.clone(),
            name: display_name,
            description: followed_by("From directory: ", dir_config.description.as_str()),
            readonly: dir_config.readonly,
        },
    )
}

/// The names of `entries` stand in strictly rising order, so no two are the same.
pub open spec fn sorted_by_name(entries: Seq<ConfigFileView>) -> bool {
    forall|i: int, j: int|
        0 <= i < j < entries.len() ==> lex_lt(
            #[trigger] entries[i].name,
            #[trigger] entries[j].name,
        )
}

/// How many of `entries` have a name that comes before `name`.
pub open spec fn rank(entries: Seq<ConfigFileView>, name: Seq<char>) -> int
    decreases entries.len(),
{
    if entries.len() == 0 {
        0
    } else {
        rank(entries.drop_last(), name) + if lex_lt(entries.last().name, name) {
            1int
        } else {
            0int
        }
    }
}

/// `entries` with `file` put in at the place that its name has among them: in place
/// of the entry of the same name where there is one, between its neighbours otherwise.
pub open spec fn placed(entries: Seq<ConfigFileView>, file: ConfigFileView) -> Seq<
    ConfigFileView,
> {
    let at = rank(entries, file.name);
    if at < entries.len() && entries[at].name == file.name {
        entries.update(at, file)
    } else {
        entries.insert(at, file)
    }
}

/// The entry of `entries` with the name `name`.
pub open spec fn named(entries: Seq<ConfigFileView>, name: Seq<char>) -> Option<ConfigFileView>
    decreases entries.len(),
{
    if entries.len() == 0 {
        None
    } else if entries.last().name == name {
        Some(entries.last())
    } else {
        named(entries.drop_last(), name)
    }
}

/// `files` put one after the other into `entries`.
pub open spec fn placed_all(entries: Seq<ConfigFileView>, files: Seq<ConfigFileView>) -> Seq<
    ConfigFileView,
>
    decreases files.len(),
{
    if files.len() == 0 {
        entries
    } else {
        placed(placed_all(entries, files.drop_last()), files.last())
    }
}

/// In entries sorted by name, the entries before the rank of a name are those that
/// come before the name, and the entry at the rank is the only one that can bear it.
pub proof fn lemma_rank(entries: Seq<ConfigFileView>, name: Seq<char>)
    requires
        sorted_by_name(entries),
    ensures
        0 <= rank(entries, name) <= entries.len(),
        forall|i: int| 0 <= i < rank(entries, name) ==> lex_lt(#[trigger] entries[i].name, name),
        forall|i: int|
            rank(entries, name) <= i < entries.len() ==> !lex_lt(#[trigger] entries[i].name, name),
        forall|i: int|
            0 <= i < entries.len() && #[trigger] entries[i].name == name ==> i == rank(
                entries,
                name,
            ),
    decreases entries.len(),
{
    if entries.len() > 0 {
        let front = entries.drop_last();
        let last = entries.len() - 1;
        assert(sorted_by_name(front)) by {
            assert forall|i: int, j: int| 0 <= i < j < front.len() implies lex_lt(
                #[trigger] front[i].name,
                #[trigger] front[j].name,
            ) by {
                assert(front[i] == entries[i] && front[j] == entries[j]);
            }
        }
        lemma_rank(front, name);
        assert(forall|i: int| 0 <= i < front.len() ==> front[i] == entries[i]);
        if lex_lt(entries[last].name, name) {
            assert forall|i: int| 0 <= i < last implies lex_lt(
                #[trigger] entries[i].name,
                name,
            ) by {
                lemma_lex_transitive(entries[i].name, entries[last].name, name);
            }
            assert(rank(front, name) == front.len()) by {
                if rank(front, name) < front.len() {
                    let k = rank(front, name);
                    assert(!lex_lt(front[k].name, name));
                    assert(lex_lt(entries[k].name, name));
                }
            }
        }
        assert forall|i: int| 0 <= i < entries.len() && #[trigger] entries[i].name
            == name implies i == rank(entries, name) by {
            lemma_lex_irreflexive(name);
            if i == last {
                if rank(front, name) < front.len() {
                    let k = rank(front, name);
                    assert(!lex_lt(entries[k].name, name));
                    assert(lex_lt(entries[k].name, entries[last].name));
                }
            }
        }
    }
}

/// Putting a file into entries sorted by name leaves them sorted by name.
pub proof fn lemma_placed_sorted(entries: Seq<ConfigFileView>, file: ConfigFileView)
    requires
        sorted_by_name(entries),
    ensures
        sorted_by_name(placed(entries, file)),
{
    lemma_rank(entries, file.name);
    let at = rank(entries, file.name);
    let after = placed(entries, file);
    assert forall|i: int, j: int| 0 <= i < j < after.len() implies lex_lt(
        #[trigger] after[i].name,
        #[trigger] after[j].name,
    ) by {
        if at < entries.len() && entries[at].name == file.name {
            assert(after[i].name == entries[i].name);
            assert(after[j].name == entries[j].name);
        } else {
            let oi = if i < at {
                i
            } else {
                i - 1
            };
            let oj = if j < at {
                j
            } else {
                j - 1
            };
            if i == at {
                assert(after[j] == entries[oj]);
                lemma_lex_total(entries[oj].name, file.name);
                if oj > at {
                    lemma_lex_total(entries[at].name, file.name);
                    lemma_lex_transitive(file.name, entries[at].name, entries[oj].name);
                }
            } else if j == at {
                assert(after[i] == entries[oi]);
            } else {
                assert(after[i] == entries[oi]);
                assert(after[j] == entries[oj]);
            }
        }
    }
}

/// The entry of a given name, in entries sorted by name, is the entry at the rank of
/// that name where that entry bears the name, and there is none otherwise.
pub proof fn lemma_named(entries: Seq<ConfigFileView>, name: Seq<char>)
    requires
        sorted_by_name(entries),
    ensures
        named(entries, name) == if rank(entries, name) < entries.len() && entries[rank(
            entries,
            name,
        )].name == name {
            Some(entries[rank(entries, name)])
        } else {
            None
        },
        named(entries, name) is None ==> forall|i: int|
            0 <= i < entries.len() ==> #[trigger] entries[i].name != name,
    decreases entries.len(),
{
    lemma_rank(entries, name);
    if entries.len() > 0 {
        let front = entries.drop_last();
        let last = entries.len() - 1;
        assert(sorted_by_name(front)) by {
            assert forall|i: int, j: int| 0 <= i < j < front.len() implies lex_lt(
                #[trigger] front[i].name,
                #[trigger] front[j].name,
            ) by {
                assert(front[i] == entries[i] && front[j] == entries[j]);
            }
        }
        lemma_named(front, name);
        lemma_rank(front, name);
        assert(forall|i: int| 0 <= i < front.len() ==> front[i] == entries[i]);
        if entries[last].name == name {
        } else {
            lemma_lex_irreflexive(name);
            if rank(front, name) < front.len() && front[rank(front, name)].name == name {
                let k = rank(front, name);
                assert(entries[k].name == name);
            } else {
                if rank(entries, name) < entries.len() && entries[rank(entries, name)].name
                    == name {
                    let k = rank(entries, name);
                    assert(k < last);
                    assert(front[k].name == name);
                }
            }
        }
    }
}

/// After a file is put in, its name leads to it, and every other name leads to what
/// it led to before.
pub proof fn lemma_placed_named(
    entries: Seq<ConfigFileView>,
    file: ConfigFileView,
    name: Seq<char>,
)
    requires
        sorted_by_name(entries),
    ensures
        named(placed(entries, file), name) == if name == file.name {
            Some(file)
        } else {
            named(entries, name)
        },
{
    lemma_placed_sorted(entries, file);
    let after = placed(entries, file);
    let at = rank(entries, file.name);
    lemma_rank(entries, file.name);
    lemma_named(entries, name);
    lemma_named(after, name);
    lemma_rank(entries, name);
    lemma_rank(after, name);
    let replaced = at < entries.len() && entries[at].name == file.name;
    assert(after[at] == file);
    if name == file.name {
    } else {
        let k = rank(entries, name);
        if k < entries.len() && entries[k].name == name {
            let moved = if replaced || k < at {
                k
            } else {
                k + 1
            };
            assert(after[moved] == entries[k]);
        } else {
            let ka = rank(after, name);
            if ka < after.len() && after[ka].name == name {
                assert(ka != at);
                let back = if replaced || ka < at {
                    ka
                } else {
                    ka - 1
                };
                assert(entries[back] == after[ka]);
            }
        }
    }
}

/// The table of the files that the server offers, by name.
pub struct AppConfig {
    files_by_name: Vec<ConfigFile>,
}

impl View for AppConfig {
    type V = Seq<ConfigFileView>;

    /// The offered files in the order of their names.
    closed spec fn view(&self) -> Seq<ConfigFileView> {
        self.files_by_name.deep_view()
    }
}

/// What the table says of a name that does not end in `.conf` or `.toml`.
pub open spec fn bad_name_text(name: Seq<char>) -> Seq<char> {
    "File name must end with .conf or .toml: "@ + name
}

/// The first of `files` whose name does not end in `.conf` or `.toml`.
pub open spec fn first_bad_name(files: Seq<ConfigFileView>) -> Option<Seq<char>>
    decreases files.len(),
{
    if files.len() == 0 {
        None
    } else {
        match first_bad_name(files.drop_last()) {
            Some(name) => Some(name),
            None => if has_config_extension(files.last().name) {
                None
            } else {
                Some(files.last().name)
            },
        }
    }
}

impl AppConfig {
    #[verifier::type_invariant]
    spec fn well_formed(&self) -> bool {
        sorted_by_name(self@)
    }

    /// A table without files.
    pub fn new() -> (table: Self)
        ensures
            table@ == Seq::<ConfigFileView>::empty(),
    {
        let table = AppConfig { files_by_name: Vec::new() };
        assert(table@ =~= Seq::empty());
        table
    }

    /// Where `name` stands or would stand among the names of the table.
    fn position(&self, name: &str) -> (at: usize)
        ensures
            at == rank(self@, name@),
            at <= self@.len(),
            sorted_by_name(self@),
    {
        proof {
            use_type_invariant(self);
            lemma_rank(self@, name@);
        }
        let mut at: usize = 0;
        let mut searching = true;
        while searching && at < self.files_by_name.len()
            invariant
                at <= self.files_by_name.len(),
                self@ == self.files_by_name.deep_view(),
                forall|i: int| 0 <= i < at ==> lex_lt(#[trigger] self@[i].name, name@),
                !searching ==> at < self@.len() && !lex_lt(self@[at as int].name, name@),
            decreases self.files_by_name.len() - at + if searching { 1int } else { 0int },
        {
            if comes_before(self.files_by_name[at].name.as_str(), name) {
                at += 1;
            } else {
                searching = false;
            }
        }
        proof {
            let r = rank(self@, name@);
            if at < r {
                assert(lex_lt(self@[at as int].name, name@));
            }
            if r < at {
                assert(lex_lt(self@[r].name, name@));
            }
        }
        at
    }

    /// This table with `file` put in, in place of the file of the same name if there
    /// is one.
    pub fn with_file(self, file: ConfigFile) -> (table: Self)
        ensures
            table@ == placed(self@, file@),
            sorted_by_name(table@),
    {
        let at = self.position(file.name.as_str());
        proof {
            lemma_placed_sorted(self@, file@);
        }
        let mut files = self.files_by_name;
        if at < files.len() && *files[at].name.as_str() == *file.name.as_str() {
            files.set(at, file);
        } else {
            files.insert(at, file);
        }
        assert(files.deep_view() =~= placed(self@, file@));
        AppConfig { files_by_name: files }
    }

    /// The table of the files named in the server's configuration and, after them, the
    /// files found in its directories. A file put in later takes the place of an
    /// earlier one of the same name. Every file of the configuration must have a name
    /// that ends in `.conf` or `.toml`: the first that does not is reported, and no
    /// table is built.
    pub fn from_parts(files: Vec<ConfigFile>, found: Vec<ConfigFile>) -> (table: Result<
        Self,
        String,
    >)
        ensures
            match first_bad_name(files.deep_view()) {
                Some(name) => table matches Err(message) && message@ == bad_name_text(name),
                None => table matches Ok(built) && built@ == placed_all(
                    placed_all(Seq::empty(), files.deep_view()),
                    found.deep_view(),
                ) && sorted_by_name(built@),
            },
    {
        let mut table = AppConfig::new();
        let mut i: usize = 0;
        while i < files.len()
            invariant
                i <= files.len(),
                first_bad_name(files.deep_view().take(i as int)) is None,
                table@ == placed_all(Seq::empty(), files.deep_view().take(i as int)),
                sorted_by_name(table@),
            decreases files.len() - i,
        {
            let ghost now = files.deep_view().take(i + 1);
            assert(now.drop_last() =~= files.deep_view().take(i as int));
            assert(now.last() == files[i as int]@);
            if !is_config_name(files[i].name.as_str()) {
                proof {
                    lemma_first_bad_name_extends(files.deep_view(), i + 1);
                }
                return Err(
                    followed_by(
                        "File name must end with .conf or .toml: ",
                        files[i].name.as_str(),
                    ),
                );
            }
            table = table.with_file(files[i].clone());
            i += 1;
        }
        assert(files.deep_view().take(files.len() as int) =~= files.deep_view());
        let ghost base = table@;
        let mut j: usize = 0;
        while j < found.len()
            invariant
                j <= found.len(),
                table@ == placed_all(base, found.deep_view().take(j as int)),
                sorted_by_name(table@),
            decreases found.len() - j,
        {
            let ghost now = found.deep_view().take(j + 1);
            assert(now.drop_last() =~= found.deep_view().take(j as int));
            assert(now.last() == found[j as int]@);
            table = table.with_file(found[j].clone());
            j += 1;
        }
        assert(found.deep_view().take(found.len() as int) =~= found.deep_view());
        Ok(table)
    }

    /// The names of all files of the table, in rising order.
    pub fn list_files(&self) -> (names: Vec<String>)
        ensures
            names.deep_view() == self@.map_values(|file: ConfigFileView| file.name),
            sorted_by_name(self@),
    {
        proof {
            use_type_invariant(self);
        }
        let mut names: Vec<String> = Vec::new();
        let mut i: usize = 0;
        while i < self.files_by_name.len()
            invariant
                i <= self.files_by_name.len(),
                names.len() == i,
                forall|j: int| 0 <= j < i ==> names[j]@ == self.files_by_name[j]@.name,
            decreases self.files_by_name.len() - i,
        {
            names.push(self.files_by_name[i].name.clone());
            i += 1;
        }
        assert(names.deep_view() =~= self@.map_values(|file: ConfigFileView| file.name));
        names
    }

    /// The file of the table with the name `name`.
    pub fn get_file(&self, name: &str) -> (file: Option<&ConfigFile>)
        ensures
            file.deep_view() == named(self@, name@),
            sorted_by_name(self@),
    {
        let at = self.position(name);
        proof {
            lemma_named(self@, name@);
        }
        if at < self.files_by_name.len() && *self.files_by_name[at].name.as_str() == *name {
            Some(&self.files_by_name[at])
        } else {
            None
        }
    }
}

/// A name that is bad among the first files is the first bad name of all the files.
pub proof fn lemma_first_bad_name_extends(files: Seq<ConfigFileView>, upto: int)
    requires
        0 <= upto <= files.len(),
        first_bad_name(files.take(upto)) is Some,
    ensures
        first_bad_name(files) == first_bad_name(files.take(upto)),
    decreases files.len(),
{
    if upto < files.len() {
        assert(files.drop_last().take(upto) =~= files.take(upto));
        lemma_first_bad_name_extends(files.drop_last(), upto);
    } else {
        assert(files.take(upto) =~= files);
    }
}

} // verus!

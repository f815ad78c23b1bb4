//! Program images: snapshots of the accumulating program.
//!
//! A [`RustProject`] holds the import table (import path to version tag,
//! paths unique, first-insertion order, last write wins) and the ordered
//! statement list. Its mathematical content is an [`ImageModel`], over
//! which all contracts are stated.

use vstd::prelude::*;
use crate::text::str_eq;

verus! {

/// The mathematical content of a program image: the import table as a
/// sequence of (path, version) pairs whose paths are unique, and the
/// statement list in execution order.
pub ghost struct ImageModel {
    pub imports: Seq<(Seq<char>, Seq<char>)>,
    pub commands: Seq<Seq<char>>,
}

impl ImageModel {
    /// The image a session starts from: no imports, no statements.
    pub open spec fn empty() -> ImageModel {
        ImageModel { imports: Seq::empty(), commands: Seq::empty() }
    }

    /// Import paths are pairwise distinct.
    pub open spec fn wf(self) -> bool {
        forall|i: int, j: int|
            0 <= i < j < self.imports.len() ==> self.imports[i].0 != self.imports[j].0
    }

    /// Whether some import entry carries this path.
    pub open spec fn has_import(self, path: Seq<char>) -> bool {
        exists|i: int| 0 <= i < self.imports.len() && self.imports[i].0 == path
    }

    /// The position of the entry carrying this path.
    pub open spec fn import_index(self, path: Seq<char>) -> int {
        choose|i: int| 0 <= i < self.imports.len() && self.imports[i].0 == path
    }

    /// Insert an import, or overwrite the version of an existing entry
    /// in place (last write wins, position kept).
    pub open spec fn upsert_import(self, path: Seq<char>, version: Seq<char>) -> ImageModel {
        if self.has_import(path) {
            ImageModel {
                imports: self.imports.update(self.import_index(path), (path, version)),
                ..self
            }
        } else {
            ImageModel { imports: self.imports.push((path, version)), ..self }
        }
    }

    /// Append one statement to the execution order.
    pub open spec fn with_command(self, command: Seq<char>) -> ImageModel {
        ImageModel { commands: self.commands.push(command), ..self }
    }
}

/// In a well-formed image the entry found for a present path is unique,
/// so `import_index` names exactly the matching position.
pub proof fn lemma_import_index_unique(m: ImageModel, path: Seq<char>, i: int)
    requires
        m.wf(),
        0 <= i < m.imports.len(),
        m.imports[i].0 == path,
    ensures
        m.has_import(path),
        m.import_index(path) == i,
{
    assert(m.has_import(path));
    let j = m.import_index(path);
    assert(0 <= j < m.imports.len() && m.imports[j].0 == path);
    if i < j {
        assert(m.imports[i].0 != m.imports[j].0);
    } else if j < i {
        assert(m.imports[j].0 != m.imports[i].0);
    }
}

/// Upserting preserves uniqueness of import paths.
pub proof fn lemma_upsert_import_wf(m: ImageModel, path: Seq<char>, version: Seq<char>)
    requires
        m.wf(),
    ensures
        m.upsert_import(path, version).wf(),
{
    let r = m.upsert_import(path, version);
    if m.has_import(path) {
        let k = m.import_index(path);
        assert(0 <= k < m.imports.len() && m.imports[k].0 == path);
        assert forall|i: int, j: int| 0 <= i < j < r.imports.len() implies r.imports[i].0
            != r.imports[j].0 by {
            if i != k && j != k {
                assert(r.imports[i] == m.imports[i]);
                assert(r.imports[j] == m.imports[j]);
            } else if i == k {
                assert(r.imports[j] == m.imports[j]);
                lemma_import_index_unique(m, path, k);
                if m.imports[j].0 == path {
                    lemma_import_index_unique(m, path, j);
                }
            } else {
                assert(r.imports[i] == m.imports[i]);
                if m.imports[i].0 == path {
                    lemma_import_index_unique(m, path, i);
                }
            }
        }
    } else {
        assert forall|i: int, j: int| 0 <= i < j < r.imports.len() implies r.imports[i].0
            != r.imports[j].0 by {
            if j < m.imports.len() as int {
                assert(m.imports[i].0 != m.imports[j].0);
            } else {
                assert(r.imports[j].0 == path);
                assert(r.imports[i] == m.imports[i]);
                assert(!m.has_import(path));
            }
        }
    }
}

/// A snapshot of the accumulating program: an import table and the
/// ordered statements of the program body.
pub struct RustProject {
    crate_list: Vec<(String, String)>,
    commands: Vec<String>,
}

impl View for RustProject {
    type V = ImageModel;

    closed spec fn view(&self) -> ImageModel {
        ImageModel {
            imports: self.crate_list@.map_values(|p: (String, String)| (p.0@, p.1@)),
            commands: self.commands@.map_values(|s: String| s@),
        }
    }
}

impl RustProject {
    /// A fresh, empty image.
    pub fn new() -> (r: Self)
        ensures
            r@ == ImageModel::empty(),
            r@.wf(),
    {
        let r = RustProject { crate_list: Vec::new(), commands: Vec::new() };
        proof {
            assert(r@.imports =~= Seq::<(Seq<char>, Seq<char>)>::empty());
            assert(r@.commands =~= Seq::<Seq<char>>::empty());
        }
        r
    }

    /// Append one statement verbatim to the program body.
    pub fn add_command(&mut self, command: &str)
        ensures
            final(self)@ == old(self)@.with_command(command@),
    {
        self.commands.push(command.to_owned());
        proof {
            assert(self@.commands =~= old(self)@.commands.push(command@));
            assert(self@.imports =~= old(self)@.imports);
        }
    }

    /// Record an import: overwrite the version of an existing entry for
    /// this path, or append a new entry.
    pub fn add_crate(&mut self, crate_name: &str, version: &str)
        requires
            old(self)@.wf(),
        ensures
            final(self)@ == old(self)@.upsert_import(crate_name@, version@),
            final(self)@.wf(),
    {
        let n = self.crate_list.len();
        let mut i: usize = 0;
        while i < n
            invariant
                n == self.crate_list.len(),
                i <= n,
                *self == *old(self),
                old(self)@.wf(),
                forall|k: int| 0 <= k < i ==> self@.imports[k].0 != crate_name@,
            decreases n - i,
        {
            if str_eq(self.crate_list[i].0.as_str(), crate_name) {
                let entry = (crate_name.to_owned(), version.to_owned());
                proof {
                    lemma_import_index_unique(old(self)@, crate_name@, i as int);
                }
                self.crate_list.set(i, entry);
                proof {
                    assert(self@.imports =~= old(self)@.imports.update(
                        i as int,
                        (crate_name@, version@),
                    ));
                    assert(self@.commands =~= old(self)@.commands);
                    lemma_upsert_import_wf(old(self)@, crate_name@, version@);
                }
                return ;
            }
            i += 1;
        }
        proof {
            assert(!old(self)@.has_import(crate_name@));
        }
        self.crate_list.push((crate_name.to_owned(), version.to_owned()));
        proof {
            assert(self@.imports =~= old(self)@.imports.push((crate_name@, version@)));
            assert(self@.commands =~= old(self)@.commands);
            lemma_upsert_import_wf(old(self)@, crate_name@, version@);
        }
    }

    /// Become exactly the other image: a full snapshot copy of both the
    /// import table and the statement list.
    pub fn merge(&mut self, others: &Self)
        ensures
            final(self)@ == merge_model(old(self)@, others@),
            final(self)@ == others@,
    {
        self.commands = clone_string_vec(&others.commands);
        self.crate_list = clone_pair_vec(&others.crate_list);
        proof {
            assert(self@.imports =~= others@.imports);
            assert(self@.commands =~= others@.commands);
        }
    }

    /// The import table: (path, version) pairs in table order.
    pub fn imports(&self) -> (r: &Vec<(String, String)>)
        ensures
            r@.map_values(|p: (String, String)| (p.0@, p.1@)) == self@.imports,
    {
        &self.crate_list
    }

    /// The statement list in execution order.
    pub fn commands(&self) -> (r: &Vec<String>)
        ensures
            r@.map_values(|s: String| s@) == self@.commands,
    {
        &self.commands
    }

    /// Render the image as compilable source text: one import
    /// declaration per line in table order, then an entry-point function
    /// holding the statements in execution order, one per line.
    pub fn generate_rust(&self) -> (code: String)
        ensures
            code@ == self@.render(),
    {
        let mut code = String::new();
        let n = self.crate_list.len();
        let mut i: usize = 0;
        while i < n
            invariant
                n == self.crate_list.len(),
                i <= n,
                code@ == render_imports(self@.imports.take(i as int)),
            decreases n - i,
        {
            code.append("use ");
            code.append(self.crate_list[i].0.as_str());
            code.append(";\n");
            proof {
                let pre = self@.imports.take(i as int);
                let cur = self@.imports.take(i + 1 as int);
                assert(cur.drop_last() =~= pre);
                assert(cur.last() == self@.imports[i as int]);
            }
            i += 1;
        }
        proof {
            assert(self@.imports.take(n as int) =~= self@.imports);
        }
        code.append("fn main() {\n");
        let m = self.commands.len();
        let mut j: usize = 0;
        while j < m
            invariant
                m == self.commands.len(),
                j <= m,
                code@ == render_imports(self@.imports) + "fn main() {\n"@ + render_commands(
                    self@.commands.take(j as int),
                ),
            decreases m - j,
        {
            code.append(self.commands[j].as_str());
            code.append("\n");
            proof {
                let pre = self@.commands.take(j as int);
                let cur = self@.commands.take(j + 1 as int);
                assert(cur.drop_last() =~= pre);
                assert(cur.last() == self@.commands[j as int]);
            }
            j += 1;
        }
        proof {
            assert(self@.commands.take(m as int) =~= self@.commands);
        }
        code.append("}\n");
        code
    }
}

/// The import declarations, one per line, in table order.
pub open spec fn render_imports(imports: Seq<(Seq<char>, Seq<char>)>) -> Seq<char>
    decreases imports.len(),
{
    if imports.len() == 0 {
        Seq::empty()
    } else {
        render_imports(imports.drop_last()) + "use "@ + imports.last().0 + ";\n"@
    }
}

/// The program body: the statements in execution order, one per line.
pub open spec fn render_commands(commands: Seq<Seq<char>>) -> Seq<char>
    decreases commands.len(),
{
    if commands.len() == 0 {
        Seq::empty()
    } else {
        render_commands(commands.drop_last()) + commands.last() + "\n"@
    }
}

impl ImageModel {
    /// The source text an image renders to. Rendering is a function of
    /// the model alone, so equal images render equal text.
    pub open spec fn render(self) -> Seq<char> {
        render_imports(self.imports) + "fn main() {\n"@ + render_commands(self.commands) + "}\n"@
    }
}

/// What merging does to the target image: it becomes exactly the
/// source, a wholesale snapshot replacement, never a union or a patch.
pub open spec fn merge_model(target: ImageModel, source: ImageModel) -> ImageModel {
    source
}

/// Law: merging an image into itself is a no-op.
pub proof fn lemma_merge_idempotent(a: ImageModel)
    ensures
        merge_model(a, a) == a,
{
}

/// Law: once one image has taken a snapshot of another, merging in the
/// opposite direction restores the content the snapshot came from and
/// changes nothing further; the two images end equal.
pub proof fn lemma_merge_round_trip(a: ImageModel, b: ImageModel)
    ensures
        merge_model(a, merge_model(b, a)) == a,
        merge_model(b, a) == merge_model(a, merge_model(b, a)),
{
}

/// An element-for-element copy of a vector of strings.
fn clone_string_vec(v: &Vec<String>) -> (r: Vec<String>)
    ensures
        r@ == v@,
{
    let mut r: Vec<String> = Vec::new();
    let n = v.len();
    let mut i: usize = 0;
    while i < n
        invariant
            n == v.len(),
            i <= n,
            r@ == v@.take(i as int),
        decreases n - i,
    {
        r.push(v[i].clone());
        proof {
            assert(v@.take(i + 1 as int) =~= v@.take(i as int).push(v@[i as int]));
        }
        i += 1;
    }
    proof {
        assert(v@.take(n as int) =~= v@);
    }
    r
}

/// An element-for-element copy of a vector of string pairs.
fn clone_pair_vec(v: &Vec<(String, String)>) -> (r: Vec<(String, String)>)
    ensures
        r@ == v@,
{
    let mut r: Vec<(String, String)> = Vec::new();
    let n = v.len();
    let mut i: usize = 0;
    while i < n
        invariant
            n == v.len(),
            i <= n,
            r@ == v@.take(i as int),
        decreases n - i,
    {
        let p = &v[i];
        r.push((p.0.clone(), p.1.clone()));
        proof {
            assert(v@.take(i + 1 as int) =~= v@.take(i as int).push(v@[i as int]));
        }
        i += 1;
    }
    proof {
        assert(v@.take(n as int) =~= v@);
    }
    r
}

} // verus!

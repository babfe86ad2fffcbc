//! The tool registry: descriptors of capabilities and the catalog that maps a
//! normalised name to one of them.

use vstd::prelude::*;
use vstd::string::*;
use crate::text::{normalize, normalized, same_text};
use crate::tools::rust_toolchain_switcher::RustToolchainSwitcher;

pub mod rust_toolchain_switcher;

verus! {

/// Why a tool could not do its work.
#[derive(Clone, Copy, Debug, PartialEq, Eq, Structural)]
pub enum ToolError {
    /// The input is not a JSON object with a string under the parameter's name.
    MissingParameter,
    /// What the tool's process wrote is not valid UTF-8.
    OutputNotText,
    /// The result could not be written as a JSON document.
    Encoding,
}

/// The metadata of a capability: what the decision phase is told about a tool.
#[derive(Clone, Debug, PartialEq, Eq)]
pub struct ToolDescriptor {
    /// The name under which the catalog holds the tool.
    pub name: String,
    /// What the tool does, in words.
    pub description: String,
    /// The schema of the tool's parameters, as a JSON text.
    pub parameters: String,
    /// The names of the parameters that the schema requires.
    pub required: Vec<String>,
}

/// The mathematical counterpart of [`ToolDescriptor`].
pub ghost struct ToolView {
    pub name: Seq<char>,
    pub description: Seq<char>,
    pub parameters: Seq<char>,
    pub required: Seq<Seq<char>>,
}

impl View for ToolDescriptor {
    type V = ToolView;

    open spec fn view(&self) -> ToolView {
        ToolView {
            name: self.name@,
            description: self.description@,
            parameters: self.parameters@,
            required: self.required.deep_view(),
        }
    }
}

impl ToolDescriptor {
    /// A descriptor made of its parts.
    pub fn new(
        name: &str,
        description: &str,
        parameters: &str,
        required: Vec<String>,
    ) -> (r: ToolDescriptor)
        ensures
            r@ == (ToolView {
                name: name@,
                description: description@,
                parameters: parameters@,
                required: required.deep_view(),
            }),
    {
        ToolDescriptor {
            name: String::from_str(name),
            description: String::from_str(description),
            parameters: String::from_str(parameters),
            required,
        }
    }

    /// A copy that holds the same texts.
    pub fn duplicate(&self) -> (r: ToolDescriptor)
        ensures
            r@ == self@,
    {
        ToolDescriptor {
            name: self.name.clone(),
            description: self.description.clone(),
            parameters: self.parameters.clone(),
            required: copy_texts(&self.required),
        }
    }
}

/// A copy of the texts.
pub fn copy_texts(texts: &Vec<String>) -> (r: Vec<String>)
    ensures
        r.deep_view() == texts.deep_view(),
{
    let mut out: Vec<String> = Vec::new();
    let n: usize = texts.len();
    let mut i: usize = 0;
    while i < n
        invariant
            n == texts@.len(),
            i <= n,
            out.deep_view() == texts.deep_view().take(i as int),
        decreases n - i,
    {
        let ghost before = out.deep_view();
        out.push(texts[i].clone());
        assert(out.deep_view() =~= before.push(texts@[i as int]@));
        assert(texts.deep_view().take(i + 1) =~= texts.deep_view().take(i as int).push(
            texts@[i as int]@,
        ));
        i = i + 1;
    }
    assert(texts.deep_view().take(n as int) =~= texts.deep_view());
    out
}

/// The index of the first entry named `name`, or the length where there is none.
pub open spec fn position(entries: Seq<ToolView>, name: Seq<char>) -> int
    decreases entries.len(),
{
    if entries.len() == 0 || entries.first().name == name {
        0
    } else {
        1 + position(entries.drop_first(), name)
    }
}

/// Whether an entry is named `name`.
pub open spec fn holds(entries: Seq<ToolView>, name: Seq<char>) -> bool {
    position(entries, name) < entries.len()
}

/// The entry named `name`, if there is one.
pub open spec fn found(entries: Seq<ToolView>, name: Seq<char>) -> Option<ToolView> {
    if holds(entries, name) {
        Some(entries[position(entries, name)])
    } else {
        None
    }
}

/// `entries` after `tool` took the place of the entry of its name, or came last.
pub open spec fn inserted(entries: Seq<ToolView>, tool: ToolView) -> Seq<ToolView> {
    if holds(entries, tool.name) {
        entries.update(position(entries, tool.name), tool)
    } else {
        entries.push(tool)
    }
}

/// No two entries share a name.
pub open spec fn distinct(entries: Seq<ToolView>) -> bool {
    forall|i: int, j: int|
        0 <= i < j < entries.len() ==> (#[trigger] entries[i]).name != (#[trigger] entries[j]).name
}

/// `position` is the one index that has the name and no earlier index has.
pub proof fn lemma_position(entries: Seq<ToolView>, name: Seq<char>)
    ensures
        0 <= position(entries, name) <= entries.len(),
        holds(entries, name) ==> entries[position(entries, name)].name == name,
        forall|k: int| 0 <= k < position(entries, name) ==> (#[trigger] entries[k]).name != name,
    decreases entries.len(),
{
    if entries.len() == 0 || entries.first().name == name {
    } else {
        let rest = entries.drop_first();
        lemma_position(rest, name);
        assert forall|k: int| 0 <= k < position(entries, name) implies (#[trigger] entries[k]).name
            != name by {
            if k > 0 {
                assert(entries[k] == rest[k - 1]);
            }
        }
    }
}

/// An index that has the name, while no earlier index has, is `position`.
pub proof fn lemma_position_is(entries: Seq<ToolView>, name: Seq<char>, i: int)
    requires
        0 <= i <= entries.len(),
        i < entries.len() ==> entries[i].name == name,
        forall|k: int| 0 <= k < i ==> (#[trigger] entries[k]).name != name,
    ensures
        position(entries, name) == i,
{
    lemma_position(entries, name);
    let p = position(entries, name);
    if p < i {
        assert(entries[p].name != name);
    }
}

/// Inserting keeps the names distinct, and the catalog then holds the tool.
pub proof fn lemma_inserted(entries: Seq<ToolView>, tool: ToolView)
    requires
        distinct(entries),
    ensures
        distinct(inserted(entries, tool)),
        found(inserted(entries, tool), tool.name) == Some(tool),
        forall|name: Seq<char>|
            name != tool.name ==> #[trigger] found(inserted(entries, tool), name) == found(
                entries,
                name,
            ),
{
    let after = inserted(entries, tool);
    let p = position(entries, tool.name);
    lemma_position(entries, tool.name);
    assert(after[p] == tool);
    assert forall|i: int, j: int| 0 <= i < j < after.len() implies (#[trigger] after[i]).name != (
    #[trigger] after[j]).name by {
        if i != p && j != p {
            assert(after[i] == entries[i]);
            assert(after[j] == entries[j]);
        } else if i == p {
            if holds(entries, tool.name) {
                assert(after[j] == entries[j]);
                assert(entries[i].name != entries[j].name);
            }
        } else {
            assert(after[i] == entries[i]);
            if holds(entries, tool.name) {
                assert(entries[i].name != entries[j].name);
            }
        }
    }
    assert forall|k: int| 0 <= k < p implies (#[trigger] after[k]).name != tool.name by {
        assert(after[k] == entries[k]);
    }
    lemma_position_is(after, tool.name, p);
    assert forall|name: Seq<char>| name != tool.name implies #[trigger] found(after, name)
        == found(entries, name) by {
        let q = position(entries, name);
        lemma_position(entries, name);
        assert forall|k: int| 0 <= k < q implies (#[trigger] after[k]).name != name by {
            if k != p {
                assert(after[k] == entries[k]);
            }
        }
        if q < entries.len() {
            assert(q != p);
            assert(after[q] == entries[q]);
            lemma_position_is(after, name, q);
        } else {
            assert forall|k: int| 0 <= k < after.len() implies (#[trigger] after[k]).name
                != name by {
                if k != p {
                    assert(after[k] == entries[k]);
                }
            }
            lemma_position_is(after, name, after.len() as int);
        }
    }
}

/// The descriptors of `entries`, each by its view.
pub open spec fn views(entries: Seq<ToolDescriptor>) -> Seq<ToolView> {
    Seq::new(entries.len(), |i: int| entries[i]@)
}

/// The catalog of tools: a mapping from a name to a descriptor, in the order
/// in which the names first came.
#[derive(Debug)]
pub struct ToolCatalog {
    entries: Vec<ToolDescriptor>,
}

impl View for ToolCatalog {
    type V = Seq<ToolView>;

    closed spec fn view(&self) -> Seq<ToolView> {
        views(self.entries@)
    }
}

impl ToolCatalog {
    #[verifier::type_invariant]
    closed spec fn well_formed(self) -> bool {
        distinct(self@)
    }

    /// The empty catalog.
    pub fn new() -> (r: ToolCatalog)
        ensures
            r@ == Seq::<ToolView>::empty(),
    {
        let r = ToolCatalog { entries: Vec::new() };
        assert(r@ =~= Seq::<ToolView>::empty());
        r
    }

    /// The number of tools.
    pub fn len(&self) -> (n: usize)
        ensures
            n == self@.len(),
    {
        self.entries.len()
    }

    /// The tool at `index`, in the order of the catalog.
    pub fn entry(&self, index: usize) -> (r: Option<&ToolDescriptor>)
        ensures
            index < self@.len() ==> r is Some && r->0@ == self@[index as int],
            index >= self@.len() ==> r is None,
    {
        if index < self.entries.len() {
            Some(&self.entries[index])
        } else {
            None
        }
    }

    fn index_of(&self, name: &str) -> (i: usize)
        ensures
            i == position(self@, name@),
            i <= self@.len(),
    {
        let n: usize = self.entries.len();
        let mut i: usize = 0;
        while i < n
            invariant
                n == self.entries@.len(),
                i <= n,
                forall|k: int| 0 <= k < i ==> (#[trigger] self@[k]).name != name@,
            decreases n - i,
        {
            if same_text(self.entries[i].name.as_str(), name) {
                proof {
                    lemma_position_is(self@, name@, i as int);
                }
                return i;
            }
            i = i + 1;
        }
        proof {
            lemma_position_is(self@, name@, i as int);
        }
        i
    }

    /// Whether the catalog holds a tool named `name`.
    pub fn contains(&self, name: &str) -> (r: bool)
        ensures
            r == holds(self@, name@),
    {
        self.index_of(name) < self.entries.len()
    }

    /// The tool named `name`, if the catalog holds one.
    pub fn get(&self, name: &str) -> (r: Option<&ToolDescriptor>)
        ensures
            match r {
                Some(tool) => found(self@, name@) == Some(tool@),
                None => found(self@, name@) is None,
            },
    {
        let i: usize = self.index_of(name);
        if i < self.entries.len() {
            Some(&self.entries[i])
        } else {
            None
        }
    }

    /// The tools' names and descriptions as one text, a line for each tool.
    pub fn descriptions(&self) -> (r: String)
        ensures
            r@ == described(self@),
    {
        let mut out = String::new();
        let n: usize = self.entries.len();
        let mut i: usize = 0;
        assert(self@.take(0) =~= Seq::<ToolView>::empty());
        while i < n
            invariant
                n == self.entries@.len(),
                i <= n,
                out@ == described(self@.take(i as int)),
            decreases n - i,
        {
            proof {
                assert(self@.take(i + 1).drop_last() =~= self@.take(i as int));
                assert(self@.take(i + 1).last() == self.entries@[i as int]@);
            }
            let ghost before = out@;
            out.append("- ");
            out.append(self.entries[i].name.as_str());
            out.append(": ");
            out.append(self.entries[i].description.as_str());
            out.append("\n");
            assert(out@ =~= before + line(self.entries@[i as int]@));
            i = i + 1;
        }
        assert(self@.take(n as int) =~= self@);
        out
    }

    /// Puts `tool` under its name: in place of the tool that had the name, or last.
    pub fn insert(&mut self, tool: ToolDescriptor)
        ensures
            final(self)@ == inserted(old(self)@, tool@),
    {
        proof {
            use_type_invariant(&*self);
            lemma_inserted(self@, tool@);
        }
        let i: usize = self.index_of(tool.name.as_str());
        let ghost before = self@;
        let ghost tool_view = tool@;
        let mut taken = ToolCatalog::new();
        std::mem::swap(self, &mut taken);
        let mut entries = taken.entries;
        if i < entries.len() {
            entries.set(i, tool);
        } else {
            entries.push(tool);
        }
        assert(views(entries@) =~= inserted(before, tool_view));
        *self = ToolCatalog { entries };
    }
}

/// The line that tells the backend of one tool: its name and what it does.
pub open spec fn line(tool: ToolView) -> Seq<char> {
    "- "@ + tool.name + ": "@ + tool.description + "\n"@
}

/// What the backend is told of the tools: one line for each, in the
/// catalog's order.
pub open spec fn described(entries: Seq<ToolView>) -> Seq<char>
    decreases entries.len(),
{
    if entries.len() == 0 {
        Seq::empty()
    } else {
        described(entries.drop_last()) + line(entries.last())
    }
}

/// The descriptor of the web search tool.
pub open spec fn web_search_view() -> ToolView {
    ToolView {
        name: "ddg_searcher"@,
        description: "Searches the web using DuckDuckGo's HTML interface."@,
        parameters: "{\"description\":\"This tool lets you search the web using DuckDuckGo. The input should be a search query.\",\"type\":\"object\",\"properties\":{\"query\":{\"type\":\"string\",\"description\":\"The search query to send to DuckDuckGo\"}},\"required\":[\"query\"]}"@,
        required: seq!["query"@],
    }
}

/// The descriptor of the web search tool.
pub fn web_search() -> (r: ToolDescriptor)
    ensures
        r@ == web_search_view(),
{
    let mut required: Vec<String> = Vec::new();
    required.push(String::from_str("query"));
    assert(required.deep_view() =~= seq!["query"@]);
    ToolDescriptor::new(
        "ddg_searcher",
        "Searches the web using DuckDuckGo's HTML interface.",
        "{\"description\":\"This tool lets you search the web using DuckDuckGo. The input should be a search query.\",\"type\":\"object\",\"properties\":{\"query\":{\"type\":\"string\",\"description\":\"The search query to send to DuckDuckGo\"}},\"required\":[\"query\"]}",
        required,
    )
}

/// The capability that the library knows under `name`.
pub open spec fn known(name: Seq<char>) -> Option<ToolView> {
    if name == "ddg_searcher"@ {
        Some(web_search_view())
    } else if name == "rust_toolchain_switcher"@ {
        Some(RustToolchainSwitcher::descriptor_view())
    } else {
        None
    }
}

/// The capability that the library knows under `name`, which is already normalised.
pub fn known_tool(name: &str) -> (r: Option<ToolDescriptor>)
    ensures
        match r {
            Some(tool) => known(name@) == Some(tool@),
            None => known(name@) is None,
        },
{
    if same_text(name, "ddg_searcher") {
        Some(web_search())
    } else if same_text(name, "rust_toolchain_switcher") {
        Some(RustToolchainSwitcher::default().descriptor())
    } else {
        None
    }
}

/// The catalog that the requested names give: each known name, normalised,
/// with its capability.
pub open spec fn built(names: Seq<Seq<char>>) -> Seq<ToolView>
    decreases names.len(),
{
    if names.len() == 0 {
        Seq::empty()
    } else {
        let before = built(names.drop_last());
        match known(normalized(names.last())) {
            Some(tool) => inserted(before, tool),
            None => before,
        }
    }
}

/// The requested names that no capability answers to, normalised, in order.
pub open spec fn unknown(names: Seq<Seq<char>>) -> Seq<Seq<char>>
    decreases names.len(),
{
    if names.len() == 0 {
        Seq::empty()
    } else {
        let before = unknown(names.drop_last());
        match known(normalized(names.last())) {
            Some(_) => before,
            None => before.push(normalized(names.last())),
        }
    }
}

/// Builds the catalog from the requested names. A name that no capability
/// answers to is left out of the catalog and handed back, normalised, in the
/// second component; it is never an error.
pub fn parse_functions(functions: &Vec<String>) -> (r: (ToolCatalog, Vec<String>))
    ensures
        r.0@ == built(functions.deep_view()),
        r.1.deep_view() == unknown(functions.deep_view()),
{
    let ghost names = functions.deep_view();
    let mut catalog = ToolCatalog::new();
    let mut rejected: Vec<String> = Vec::new();
    let n: usize = functions.len();
    let mut i: usize = 0;
    assert(rejected.deep_view() =~= unknown(names.take(0)));
    while i < n
        invariant
            n == functions@.len(),
            names == functions.deep_view(),
            i <= n,
            catalog@ == built(names.take(i as int)),
            rejected.deep_view() == unknown(names.take(i as int)),
        decreases n - i,
    {
        let name = normalize(functions[i].as_str());
        proof {
            assert(names.take(i + 1).drop_last() =~= names.take(i as int));
            assert(names.take(i + 1).last() == functions@[i as int]@);
        }
        match known_tool(name.as_str()) {
            Some(tool) => {
                catalog.insert(tool);
            },
            None => {
                let ghost before = rejected.deep_view();
                rejected.push(name);
                assert(rejected.deep_view() =~= before.push(name@));
            },
        }
        i = i + 1;
    }
    assert(names.take(n as int) =~= names);
    (catalog, rejected)
}

/// Every tool of a built catalog is the known capability of a requested name,
/// and every requested name that a capability answers to is in the catalog:
/// a name without a capability never is.
pub proof fn lemma_built_holds_the_known(names: Seq<Seq<char>>)
    ensures
        distinct(built(names)),
        forall|name: Seq<char>| #[trigger]
            holds(built(names), name) ==> known(name) is Some && found(built(names), name)
                == known(name) && exists|i: int|
                0 <= i < names.len() && normalized(#[trigger] names[i]) == name,
        forall|i: int|
            0 <= i < names.len() && known(normalized(#[trigger] names[i])) is Some ==> holds(
                built(names),
                normalized(names[i]),
            ),
        forall|i: int|
            0 <= i < names.len() && known(normalized(#[trigger] names[i])) is None ==> !holds(
                built(names),
                normalized(names[i]),
            ),
    decreases names.len(),
{
    lemma_known_names();
    if names.len() == 0 {
        assert forall|name: Seq<char>| #[trigger] holds(built(names), name) implies false by {}
    } else {
        let front = names.drop_last();
        let last = normalized(names.last());
        let before = built(front);
        lemma_built_holds_the_known(front);
        assert forall|name: Seq<char>| #[trigger] holds(before, name) implies exists|i: int|
            0 <= i < names.len() && normalized(#[trigger] names[i]) == name by {
            let i = choose|i: int| 0 <= i < front.len() && normalized(#[trigger] front[i]) == name;
            assert(names[i] == front[i]);
        }
        match known(last) {
            Some(tool) => {
                lemma_inserted(before, tool);
                assert(tool.name == last);
                assert forall|name: Seq<char>| #[trigger]
                    holds(built(names), name) implies known(name) is Some && found(
                    built(names),
                    name,
                ) == known(name) && exists|i: int|
                    0 <= i < names.len() && normalized(#[trigger] names[i]) == name by {
                    if name == last {
                        assert(normalized(names[names.len() - 1]) == name);
                    } else {
                        assert(found(built(names), name) == found(before, name));
                        assert(holds(before, name));
                    }
                }
                assert forall|i: int|
                    0 <= i < names.len() && known(normalized(#[trigger] names[i])) is Some implies holds(
                    built(names),
                    normalized(names[i]),
                ) by {
                    let name = normalized(names[i]);
                    if name != last {
                        assert(names[i] == front[i]);
                        assert(found(built(names), name) == found(before, name));
                    }
                }
            },
            None => {
                assert forall|i: int|
                    0 <= i < names.len() && known(normalized(#[trigger] names[i])) is Some implies holds(
                    built(names),
                    normalized(names[i]),
                ) by {
                    assert(names[i] == front[i]);
                }
            },
        }
        assert forall|i: int|
            0 <= i < names.len() && known(normalized(#[trigger] names[i])) is None implies !holds(
            built(names),
            normalized(names[i]),
        ) by {
            if holds(built(names), normalized(names[i])) {
                assert(known(normalized(names[i])) is Some);
            }
        }
    }
}

/// A known capability is named as it is asked for.
pub proof fn lemma_known_names()
    ensures
        forall|name: Seq<char>| #[trigger] known(name) is Some ==> known(name)->0.name == name,
{
}

} // verus!

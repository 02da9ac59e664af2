//! Resolution of creation requests against a project configuration: which
//! category owns an item type, where the new file goes, and what name its
//! template receives.
use crate::config::{
    config_fault, opt_items, supports_dynamic, validation_accepts_valid_rows, Category, Item,
    ProjectConfig,
};
use crate::lookup::{
    distinct_names, entry_names, find_key, first_index, key_index, lemma_first_index,
    lemma_first_index_at, lemma_first_index_none, lemma_key_index_distinct, names_of,
};
use crate::naming::{
    generate_template_name, is_valid_name, kebab, template_name, to_kebab_case, valid_name,
};
use crate::opts::Commands;
use crate::text::push_char;
use vstd::prelude::*;

verus! {

/// A loaded configuration and the source directory that new items go under.
pub struct CliEngine {
    pub config: ProjectConfig,
    pub source_dir: String,
}

/// A request path that does not split into `module/item_type/name`.
#[derive(Clone, Debug)]
pub struct RequestFormatError {
    pub path: String,
}

/// An item type that no category owns, with every known item type paired
/// with its category, for diagnostics.
#[derive(Clone, Debug)]
pub struct ItemTypeNotFound {
    pub item_type: String,
    pub available: Vec<(String, String)>,
}

/// Why a creation request cannot be carried out.
#[derive(Clone, Debug)]
pub enum CreateError {
    /// The command handed over is not a creation request.
    InvalidCommand,
    Format(RequestFormatError),
    NotFound(ItemTypeNotFound),
    InvalidModuleName { name: String },
    InvalidItemName { name: String },
    /// The owning category holds no such item type (the configuration is
    /// inconsistent).
    ItemNotInCategory { category: String, item_type: String },
}

/// Why a listing cannot be produced.
#[derive(Clone, Debug)]
pub enum ListError {
    /// The command handed over is not a listing request.
    InvalidCommand,
    CategoryNotFound { name: String },
}

/// Everything needed to create one item: where its file goes (the directory
/// as path segments, starting at the source directory, then the file stem,
/// which takes `extension` as its extension), which template it comes from,
/// and the name substituted into it.
#[derive(Clone, Debug)]
pub struct CreatePlan {
    pub category: String,
    pub module_name: String,
    pub item_type: String,
    pub item_name: String,
    pub template: String,
    pub directory: Vec<String>,
    pub file_stem: String,
    pub extension: String,
    pub template_name: String,
}

/// One line of the list of known item types: `item_type (in category)`.
pub open spec fn type_line(p: (Seq<char>, Seq<char>)) -> Seq<char> {
    p.0 + " (in "@ + p.1 + ")"@
}

/// The lines of the known item types, separated by a newline and an indent.
pub open spec fn type_lines(pairs: Seq<(Seq<char>, Seq<char>)>) -> Seq<char>
    decreases pairs.len(),
{
    if pairs.len() == 0 {
        seq![]
    } else if pairs.len() == 1 {
        type_line(pairs[0])
    } else {
        type_lines(pairs.drop_last()) + "\n  "@ + type_line(pairs.last())
    }
}

pub open spec fn not_found_message(e: ItemTypeNotFound) -> Seq<char> {
    "Item type '"@ + e.item_type@ + "' not found in any module.\n💡 Available types:\n  "@
        + type_lines(pairs_view(e.available@))
}

pub open spec fn create_error_message(e: CreateError) -> Seq<char> {
    match e {
        CreateError::InvalidCommand => "Invalid command for create handler"@,
        CreateError::Format(f) => "Invalid path format. Expected: module/item_type/name, got: "@
            + f.path@ + "\n💡 Example: cats/components/cat-list"@,
        CreateError::NotFound(nf) => not_found_message(nf),
        CreateError::InvalidModuleName { name } => "Invalid module name '"@ + name@
            + "'. Use only letters, numbers, hyphens, and underscores."@,
        CreateError::InvalidItemName { name } => "Invalid item name '"@ + name@
            + "'. Use only letters, numbers, hyphens, and underscores."@,
        CreateError::ItemNotInCategory { category, item_type } => "Item type '"@ + item_type@
            + "' not found in category '"@ + category@ + "'"@,
    }
}

pub open spec fn list_error_message(e: ListError) -> Seq<char> {
    match e {
        ListError::InvalidCommand => "Invalid command for list handler"@,
        ListError::CategoryNotFound { name } => "Category '"@ + name@ + "' not found"@,
    }
}

/// A dynamic category whose default structure holds item type `t`.
pub open spec fn dynamic_match(t: Seq<char>) -> spec_fn((String, Category)) -> bool {
    |e: (String, Category)|
        supports_dynamic(e.1) && key_index(opt_items(e.1.default_structure), t) is Some
}

/// A category without dynamic children whose static children hold item type `t`.
pub open spec fn static_match(t: Seq<char>) -> spec_fn((String, Category)) -> bool {
    |e: (String, Category)| !supports_dynamic(e.1) && key_index(opt_items(e.1.children), t) is Some
}

/// The category that owns item type `t`: the first dynamic category whose
/// default structure holds it, else the first category without dynamic
/// children whose static children hold it.
pub open spec fn owner_index(cats: Seq<(String, Category)>, t: Seq<char>) -> Option<int> {
    match first_index(cats, dynamic_match(t)) {
        Some(i) => Some(i),
        None => first_index(cats, static_match(t)),
    }
}

pub open spec fn tagged(names: Seq<Seq<char>>, category: Seq<char>) -> Seq<(Seq<char>, Seq<char>)> {
    names.map_values(|n: Seq<char>| (n, category))
}

/// The item types of one category, each paired with the category's name:
/// static children first, then the default structure of a dynamic category.
pub open spec fn category_types(e: (String, Category)) -> Seq<(Seq<char>, Seq<char>)> {
    tagged(entry_names(opt_items(e.1.children)), e.0@) + if supports_dynamic(e.1) {
        tagged(entry_names(opt_items(e.1.default_structure)), e.0@)
    } else {
        seq![]
    }
}

/// Every known item type with its category, category by category.
pub open spec fn available_types(cats: Seq<(String, Category)>) -> Seq<(Seq<char>, Seq<char>)>
    decreases cats.len(),
{
    if cats.len() == 0 {
        seq![]
    } else {
        available_types(cats.drop_last()) + category_types(cats.last())
    }
}

pub open spec fn pairs_view(v: Seq<(String, String)>) -> Seq<(Seq<char>, Seq<char>)> {
    v.map_values(|p: (String, String)| (p.0@, p.1@))
}

pub open spec fn strings_view(v: Seq<String>) -> Seq<Seq<char>> {
    v.map_values(|s: String| s@)
}

/// The pieces of `s` between slashes, empty pieces included.
pub open spec fn slash_pieces(s: Seq<char>) -> Seq<Seq<char>>
    decreases s.len(),
{
    if s.len() == 0 {
        seq![Seq::<char>::empty()]
    } else {
        let prev = slash_pieces(s.drop_last());
        if s.last() == '/' {
            prev.push(Seq::<char>::empty())
        } else {
            prev.drop_last().push(prev.last().push(s.last()))
        }
    }
}

/// The category a request `first/second/...` goes to: `first` itself when it
/// names a category without dynamic children, else the owner of item type
/// `second`.
pub open spec fn request_owner(cats: Seq<(String, Category)>, first: Seq<char>, second: Seq<char>) -> Option<int> {
    match key_index(cats, first) {
        Some(i) => if !supports_dynamic(cats[i].1) {
            Some(i)
        } else {
            owner_index(cats, second)
        },
        None => owner_index(cats, second),
    }
}

/// The item of type `t` in a category: among its static children, else, for
/// a dynamic category, in its default structure.
pub open spec fn item_lookup(c: Category, t: Seq<char>) -> Option<Item> {
    match key_index(opt_items(c.children), t) {
        Some(i) => Some(opt_items(c.children)[i].1),
        None => if supports_dynamic(c) {
            match key_index(opt_items(c.default_structure), t) {
                Some(j) => Some(opt_items(c.default_structure)[j].1),
                None => None,
            }
        } else {
            None
        },
    }
}

/// `source/category/kebab(module)/item_type` in a dynamic category,
/// `source/category/item_type` otherwise.
pub open spec fn target_directory(
    source: Seq<char>,
    category: Seq<char>,
    dynamic: bool,
    module: Seq<char>,
    item_type: Seq<char>,
) -> Seq<Seq<char>> {
    if dynamic {
        seq![source, category, kebab(module), item_type]
    } else {
        seq![source, category, item_type]
    }
}

/// The plan creates item `item_name` of `item_type` from `item` in `category`.
pub open spec fn plan_fits(
    plan: CreatePlan,
    source: Seq<char>,
    category: Seq<char>,
    dynamic: bool,
    module: Seq<char>,
    item_type: Seq<char>,
    item_name: Seq<char>,
    item: Item,
) -> bool {
    &&& plan.category@ == category
    &&& plan.module_name@ == module
    &&& plan.item_type@ == item_type
    &&& plan.item_name@ == item_name
    &&& plan.template@ == item.template@
    &&& strings_view(plan.directory@) == target_directory(
        source,
        category,
        dynamic,
        module,
        item_type,
    )
    &&& plan.file_stem@ == kebab(item_name)
    &&& plan.extension@ == item.file_extension@
    &&& plan.template_name@ == template_name(item_type, item_name)
}

/// What a creation request `path` gives: a format error unless it has three
/// pieces; a not-found error unless a category owns it; then the module
/// name, then the item name must be valid; then the owning category must hold
/// the item type; and then the plan.
pub open spec fn create_outcome(
    eng: CliEngine,
    path: Seq<char>,
    r: Result<CreatePlan, CreateError>,
) -> bool {
    let cats = eng.config.project.structure@;
    let pieces = slash_pieces(path);
    let owner = request_owner(cats, pieces[0], pieces[1]);
    match r {
        Ok(plan) => {
            &&& pieces.len() == 3
            &&& owner is Some
            &&& valid_name(pieces[0])
            &&& valid_name(pieces[2])
            &&& item_lookup(cats[owner->0].1, pieces[1]) is Some
            &&& plan_fits(
                plan,
                eng.source_dir@,
                cats[owner->0].0@,
                supports_dynamic(cats[owner->0].1),
                pieces[0],
                pieces[1],
                pieces[2],
                item_lookup(cats[owner->0].1, pieces[1])->0,
            )
        },
        Err(CreateError::Format(e)) => pieces.len() != 3 && e.path@ == path,
        Err(CreateError::NotFound(e)) => {
            &&& pieces.len() == 3
            &&& owner is None
            &&& e.item_type@ == pieces[1]
            &&& pairs_view(e.available@) == available_types(cats)
        },
        Err(CreateError::InvalidModuleName { name }) => {
            &&& pieces.len() == 3
            &&& owner is Some
            &&& !valid_name(pieces[0])
            &&& name@ == pieces[0]
        },
        Err(CreateError::InvalidItemName { name }) => {
            &&& pieces.len() == 3
            &&& owner is Some
            &&& valid_name(pieces[0])
            &&& !valid_name(pieces[2])
            &&& name@ == pieces[2]
        },
        Err(CreateError::ItemNotInCategory { category, item_type }) => {
            &&& pieces.len() == 3
            &&& owner is Some
            &&& valid_name(pieces[0])
            &&& valid_name(pieces[2])
            &&& item_lookup(cats[owner->0].1, pieces[1]) is None
            &&& category@ == cats[owner->0].0@
            &&& item_type@ == pieces[1]
        },
        Err(CreateError::InvalidCommand) => false,
    }
}

/// Dynamic ownership has priority: when item type `t` is in the default
/// structure of a dynamic category `d` and in the static children of a
/// category `s` without dynamic children, the owner is a dynamic category
/// whose default structure holds `t`, the first such one, never `s`; with
/// distinct category names, looking the owner up by its name finds it.
pub proof fn dynamic_owner_wins(cats: Seq<(String, Category)>, t: Seq<char>, d: int, s: int)
    requires
        0 <= d < cats.len(),
        0 <= s < cats.len(),
        dynamic_match(t)(cats[d]),
        static_match(t)(cats[s]),
    ensures
        owner_index(cats, t) is Some,
        owner_index(cats, t) == first_index(cats, dynamic_match(t)),
        supports_dynamic(cats[owner_index(cats, t)->0].1),
        key_index(opt_items(cats[owner_index(cats, t)->0].1.default_structure), t) is Some,
        owner_index(cats, t)->0 <= d,
        owner_index(cats, t) != Some(s),
        distinct_names(cats) ==> key_index(cats, cats[owner_index(cats, t)->0].0@) == owner_index(
            cats,
            t,
        ),
{
    lemma_first_index(cats, dynamic_match(t));
    if distinct_names(cats) {
        lemma_key_index_distinct(cats, owner_index(cats, t)->0);
    }
}

/// No category knows item type `t`: neither among its static children nor
/// in its default structure.
pub open spec fn unknown_item_type(cats: Seq<(String, Category)>, t: Seq<char>) -> bool {
    forall|i: int|
        0 <= i < cats.len() ==> key_index(opt_items(#[trigger] cats[i].1.children), t) is None
            && key_index(opt_items(cats[i].1.default_structure), t) is None
}

/// A request `module/item_type/name` whose item type no category knows fails
/// with a not-found error that names the item type and lists every known
/// item type with its category, unless `module` names a category without
/// dynamic children (the request then addresses that category directly).
pub proof fn unknown_item_type_is_not_found(
    eng: CliEngine,
    path: Seq<char>,
    r: Result<CreatePlan, CreateError>,
)
    requires
        create_outcome(eng, path, r),
        slash_pieces(path).len() == 3,
        unknown_item_type(eng.config.project.structure@, slash_pieces(path)[1]),
        match key_index(eng.config.project.structure@, slash_pieces(path)[0]) {
            Some(i) => supports_dynamic(eng.config.project.structure@[i].1),
            None => true,
        },
    ensures
        r matches Err(CreateError::NotFound(e)) && e.item_type@ == slash_pieces(path)[1]
            && pairs_view(e.available@) == available_types(eng.config.project.structure@),
{
    let cats = eng.config.project.structure@;
    let t = slash_pieces(path)[1];
    lemma_first_index_none(cats, dynamic_match(t));
    lemma_first_index_none(cats, static_match(t));
}

proof fn lemma_available_types_push(cats: Seq<(String, Category)>, e: (String, Category))
    ensures
        available_types(cats.push(e)) == available_types(cats) + category_types(e),
{
    assert(cats.push(e).drop_last() =~= cats);
}

/// Appends each name paired with `category`.
fn push_tagged(out: &mut Vec<(String, String)>, names: &Vec<String>, category: &String)
    ensures
        pairs_view(final(out)@) == pairs_view(old(out)@) + tagged(
            strings_view(names@),
            category@,
        ),
{
    let ghost start = old(out)@;
    let mut i: usize = 0;
    while i < names.len()
        invariant
            i <= names@.len(),
            out@.len() == start.len() + i,
            forall|j: int| 0 <= j < start.len() ==> #[trigger] out@[j] == start[j],
            forall|j: int|
                0 <= j < i ==> (#[trigger] out@[start.len() + j]).0@ == names@[j]@ && out@[start.len()
                    + j].1@ == category@,
        decreases names.len() - i,
    {
        out.push((names[i].clone(), category.clone()));
        i = i + 1;
    }
    assert(pairs_view(out@) =~= pairs_view(start) + tagged(strings_view(names@), category@)) by {
        assert forall|j: int| start.len() <= j < out@.len() implies pairs_view(out@)[j] == (
        pairs_view(start) + tagged(strings_view(names@), category@))[j] by {
            assert(out@[start.len() + (j - start.len())] == out@[j]);
        }
    }
}

proof fn lemma_slash_pieces_step(s: Seq<char>, i: int)
    requires
        0 <= i < s.len(),
    ensures
        slash_pieces(s.take(i + 1)) == (if s[i] == '/' {
            slash_pieces(s.take(i)).push(Seq::<char>::empty())
        } else {
            slash_pieces(s.take(i)).drop_last().push(slash_pieces(s.take(i)).last().push(s[i]))
        }),
{
    assert(s.take(i + 1).drop_last() =~= s.take(i));
}

/// Splits a creation request `module/item_type/name` into its three pieces.
pub fn parse_request(path: &str) -> (r: Result<(String, String, String), RequestFormatError>)
    ensures
        match r {
            Ok((first, second, third)) => slash_pieces(path@) == seq![first@, second@, third@],
            Err(e) => slash_pieces(path@).len() != 3 && e.path@ == path@,
        },
{
    let ghost s = path@;
    let n = path.unicode_len();
    let mut done: Vec<String> = Vec::new();
    let mut cur = String::new();
    let mut i: usize = 0;
    assert(s.take(0) =~= Seq::<char>::empty());
    assert(strings_view(done@).push(cur@) =~= seq![Seq::<char>::empty()]);
    while i < n
        invariant
            s == path@,
            n == s.len(),
            i <= n,
            slash_pieces(s.take(i as int)) == strings_view(done@).push(cur@),
        decreases n - i,
    {
        let c = path.get_char(i);
        proof {
            lemma_slash_pieces_step(s, i as int);
            assert(strings_view(done@).push(cur@).drop_last() =~= strings_view(done@));
        }
        if c == '/' {
            done.push(cur);
            cur = String::new();
            assert(strings_view(done@).push(cur@) =~= slash_pieces(s.take(i + 1)));
        } else {
            push_char(&mut cur, c);
            assert(strings_view(done@).push(cur@) =~= slash_pieces(s.take(i + 1)));
        }
        i = i + 1;
    }
    assert(s.take(n as int) =~= s);
    done.push(cur);
    assert(strings_view(done@) =~= slash_pieces(s));
    if done.len() != 3 {
        return Err(RequestFormatError { path: path.to_string() });
    }
    let third = done.pop().unwrap();
    let second = done.pop().unwrap();
    let first = done.pop().unwrap();
    Ok((first, second, third))
}

impl ItemTypeNotFound {
    /// The error as text: the item type, then every known item type with its
    /// category, one per line.
    pub fn message(&self) -> (r: String)
        ensures
            r@ == not_found_message(*self),
    {
        let ghost pairs = pairs_view(self.available@);
        let mut lines = String::new();
        let mut i: usize = 0;
        while i < self.available.len()
            invariant
                pairs == pairs_view(self.available@),
                i <= self.available@.len(),
                lines@ == type_lines(pairs.take(i as int)),
            decreases self.available.len() - i,
        {
            proof {
                assert(pairs.take(i + 1).drop_last() =~= pairs.take(i as int));
                if i == 0 {
                    assert(pairs.take(0) =~= Seq::<(Seq<char>, Seq<char>)>::empty());
                }
            }
            if i > 0 {
                lines.append("\n  ");
            }
            let (item_type, category) = &self.available[i];
            lines.append(item_type.as_str());
            lines.append(" (in ");
            lines.append(category.as_str());
            lines.append(")");
            i = i + 1;
        }
        assert(pairs.take(i as int) =~= pairs);
        let mut out = "Item type '".to_string();
        out.append(self.item_type.as_str());
        out.append("' not found in any module.\n💡 Available types:\n  ");
        out.append(lines.as_str());
        out
    }
}

impl CreateError {
    /// The error as text.
    pub fn message(&self) -> (r: String)
        ensures
            r@ == create_error_message(*self),
    {
        match self {
            CreateError::InvalidCommand => "Invalid command for create handler".to_string(),
            CreateError::Format(f) => {
                let mut out = "Invalid path format. Expected: module/item_type/name, got: ".to_string();
                out.append(f.path.as_str());
                out.append("\n💡 Example: cats/components/cat-list");
                out
            },
            CreateError::NotFound(nf) => nf.message(),
            CreateError::InvalidModuleName { name } => {
                let mut out = "Invalid module name '".to_string();
                out.append(name.as_str());
                out.append("'. Use only letters, numbers, hyphens, and underscores.");
                out
            },
            CreateError::InvalidItemName { name } => {
                let mut out = "Invalid item name '".to_string();
                out.append(name.as_str());
                out.append("'. Use only letters, numbers, hyphens, and underscores.");
                out
            },
            CreateError::ItemNotInCategory { category, item_type } => {
                let mut out = "Item type '".to_string();
                out.append(item_type.as_str());
                out.append("' not found in category '");
                out.append(category.as_str());
                out.append("'");
                out
            },
        }
    }
}

impl ListError {
    /// The error as text.
    pub fn message(&self) -> (r: String)
        ensures
            r@ == list_error_message(*self),
    {
        match self {
            ListError::InvalidCommand => "Invalid command for list handler".to_string(),
            ListError::CategoryNotFound { name } => {
                let mut out = "Category '".to_string();
                out.append(name.as_str());
                out.append("' not found");
                out
            },
        }
    }
}

impl CliEngine {
    pub fn new(config: ProjectConfig, source_dir: String) -> (r: Self)
        ensures
            r.config == config,
            r.source_dir == source_dir,
    {
        CliEngine { config, source_dir }
    }

    /// Every known item type paired with its category, category by category:
    /// static children first, then the default structure of a dynamic category.
    pub fn list_item_types(&self) -> (r: Vec<(String, String)>)
        ensures
            pairs_view(r@) == available_types(self.config.project.structure@),
    {
        let cats = &self.config.project.structure;
        let mut out: Vec<(String, String)> = Vec::new();
        let mut i: usize = 0;
        assert(cats@.take(0) =~= Seq::<(String, Category)>::empty());
        assert(pairs_view(out@) =~= seq![]);
        while i < cats.len()
            invariant
                cats == &self.config.project.structure,
                i <= cats@.len(),
                pairs_view(out@) == available_types(cats@.take(i as int)),
            decreases cats.len() - i,
        {
            proof {
                assert(cats@.take(i + 1) =~= cats@.take(i as int).push(cats@[i as int]));
                lemma_available_types_push(cats@.take(i as int), cats@[i as int]);
            }
            let (name, category) = &cats[i];
            let static_names = category.get_item_names();
            push_tagged(&mut out, &static_names, name);
            if category.supports_dynamic_children() {
                let dynamic_names = match category.get_default_structure() {
                    Some(d) => names_of(d),
                    None => Vec::new(),
                };
                assert(strings_view(dynamic_names@) == entry_names(
                    opt_items(category.default_structure),
                )) by {
                    if category.default_structure is None {
                        assert(strings_view(dynamic_names@) =~= entry_names(
                            opt_items(category.default_structure),
                        ));
                    }
                }
                push_tagged(&mut out, &dynamic_names, name);
            }
            assert(pairs_view(out@) =~= available_types(cats@.take(i as int)) + category_types(
                cats@[i as int],
            ));
            i = i + 1;
        }
        assert(cats@.take(i as int) =~= cats@);
        out
    }

    /// The position of the category that owns item type `item_type`.
    fn owner_position(&self, item_type: &str) -> (r: Result<usize, ItemTypeNotFound>)
        ensures
            match r {
                Ok(i) => i < self.config.project.structure@.len() && owner_index(
                    self.config.project.structure@,
                    item_type@,
                ) == Some(i as int),
                Err(e) => owner_index(self.config.project.structure@, item_type@) is None
                    && e.item_type@ == item_type@ && pairs_view(e.available@) == available_types(
                    self.config.project.structure@,
                ),
            },
    {
        let cats = &self.config.project.structure;
        let ghost dyn_p = dynamic_match(item_type@);
        let ghost static_p = static_match(item_type@);
        let mut i: usize = 0;
        while i < cats.len()
            invariant
                cats == &self.config.project.structure,
                dyn_p == dynamic_match(item_type@),
                i <= cats@.len(),
                forall|j: int| 0 <= j < i ==> !dyn_p(#[trigger] cats@[j]),
            decreases cats.len() - i,
        {
            let category = &cats[i].1;
            if category.supports_dynamic_children() {
                if let Some(d) = category.get_default_structure() {
                    if find_key(d, item_type).is_some() {
                        proof {
                            lemma_first_index_at(cats@, dyn_p, i as int);
                        }
                        return Ok(i);
                    }
                }
            }
            i = i + 1;
        }
        proof {
            lemma_first_index_none(cats@, dyn_p);
        }
        let mut k: usize = 0;
        while k < cats.len()
            invariant
                cats == &self.config.project.structure,
                static_p == static_match(item_type@),
                first_index(cats@, dynamic_match(item_type@)) is None,
                k <= cats@.len(),
                forall|j: int| 0 <= j < k ==> !static_p(#[trigger] cats@[j]),
            decreases cats.len() - k,
        {
            let category = &cats[k].1;
            if !category.supports_dynamic_children() && category.get_item(item_type).is_some() {
                proof {
                    lemma_first_index_at(cats@, static_p, k as int);
                }
                return Ok(k);
            }
            k = k + 1;
        }
        proof {
            lemma_first_index_none(cats@, static_p);
        }
        Err(ItemTypeNotFound { item_type: item_type.to_string(), available: self.list_item_types() })
    }

    /// The category that owns item type `item_type`, with its name: dynamic
    /// categories first, then those without dynamic children.
    pub fn find_category_for_item_type(&self, item_type: &str) -> (r: Result<
        (String, &Category),
        ItemTypeNotFound,
    >)
        ensures
            match r {
                Ok((name, category)) => {
                    let cats = self.config.project.structure@;
                    let i = owner_index(cats, item_type@);
                    &&& i is Some
                    &&& 0 <= i->0 < cats.len()
                    &&& name@ == cats[i->0].0@
                    &&& *category == cats[i->0].1
                    &&& config_fault(self.config) is None ==> key_index(cats, name@) == i
                },
                Err(e) => owner_index(self.config.project.structure@, item_type@) is None
                    && e.item_type@ == item_type@ && pairs_view(e.available@) == available_types(
                    self.config.project.structure@,
                ),
            },
    {
        let i = self.owner_position(item_type)?;
        proof {
            validation_accepts_valid_rows(self.config);
            if config_fault(self.config) is None {
                lemma_key_index_distinct(self.config.project.structure@, i as int);
            }
        }
        let (name, category) = &self.config.project.structure[i];
        Ok((name.clone(), category))
    }

    /// The item of type `item_type` in `category`.
    fn lookup_item<'a>(category: &'a Category, item_type: &str) -> (r: Option<&'a Item>)
        ensures
            match r {
                Some(item) => item_lookup(*category, item_type@) == Some(*item),
                None => item_lookup(*category, item_type@) is None,
            },
    {
        if let Some(item) = category.get_item(item_type) {
            return Some(item);
        }
        if category.supports_dynamic_children() {
            if let Some(d) = category.get_default_structure() {
                if let Some(j) = find_key(d, item_type) {
                    return Some(&d[j].1);
                }
            }
        }
        None
    }

    /// The plan for an item of a dynamic category:
    /// `source/category/kebab(module)/item_type/kebab(name)` with the item's extension.
    pub fn create_cohesive_module_item(
        &self,
        category: &str,
        module_name: &str,
        item_type: &str,
        item_name: &str,
        item_config: &Item,
    ) -> (r: CreatePlan)
        ensures
            plan_fits(
                r,
                self.source_dir@,
                category@,
                true,
                module_name@,
                item_type@,
                item_name@,
                *item_config,
            ),
    {
        let mut directory: Vec<String> = Vec::new();
        directory.push(self.source_dir.clone());
        directory.push(category.to_string());
        directory.push(to_kebab_case(module_name));
        directory.push(item_type.to_string());
        assert(strings_view(directory@) =~= target_directory(
            self.source_dir@,
            category@,
            true,
            module_name@,
            item_type@,
        ));
        Self::plan(directory, category, module_name, item_type, item_name, item_config)
    }

    /// The plan for an item of a category without dynamic children:
    /// `source/category/item_type/kebab(name)` with the item's extension.
    pub fn create_static_category_item(
        &self,
        category: &str,
        module_name: &str,
        item_type: &str,
        item_name: &str,
        item_config: &Item,
    ) -> (r: CreatePlan)
        ensures
            plan_fits(
                r,
                self.source_dir@,
                category@,
                false,
                module_name@,
                item_type@,
                item_name@,
                *item_config,
            ),
    {
        let mut directory: Vec<String> = Vec::new();
        directory.push(self.source_dir.clone());
        directory.push(category.to_string());
        directory.push(item_type.to_string());
        assert(strings_view(directory@) =~= target_directory(
            self.source_dir@,
            category@,
            false,
            module_name@,
            item_type@,
        ));
        Self::plan(directory, category, module_name, item_type, item_name, item_config)
    }

    fn plan(
        directory: Vec<String>,
        category: &str,
        module_name: &str,
        item_type: &str,
        item_name: &str,
        item_config: &Item,
    ) -> (r: CreatePlan)
        ensures
            r.directory == directory,
            r.category@ == category@,
            r.module_name@ == module_name@,
            r.item_type@ == item_type@,
            r.item_name@ == item_name@,
            r.template@ == item_config.template@,
            r.file_stem@ == kebab(item_name@),
            r.extension@ == item_config.file_extension@,
            r.template_name@ == template_name(item_type@, item_name@),
    {
        CreatePlan {
            category: category.to_string(),
            module_name: module_name.to_string(),
            item_type: item_type.to_string(),
            item_name: item_name.to_string(),
            template: item_config.template.clone(),
            directory,
            file_stem: to_kebab_case(item_name),
            extension: item_config.file_extension.clone(),
            template_name: generate_template_name(item_type, item_name),
        }
    }
    /// Resolves a creation request `path` to the plan of the item to create;
    /// see [`create_outcome`].
    pub fn plan_create(&self, path: &str) -> (r: Result<CreatePlan, CreateError>)
        ensures
            create_outcome(*self, path@, r),
    {
        let (first, second, third) = match parse_request(path) {
            Ok(t) => t,
            Err(e) => return Err(CreateError::Format(e)),
        };
        let cats = &self.config.project.structure;
        let explicit = match find_key(cats, first.as_str()) {
            Some(i) => if !cats[i].1.supports_dynamic_children() {
                Some(i)
            } else {
                None
            },
            None => None,
        };
        let owner = match explicit {
            Some(i) => i,
            None => match self.owner_position(second.as_str()) {
                Ok(i) => i,
                Err(e) => return Err(CreateError::NotFound(e)),
            },
        };
        if !is_valid_name(first.as_str()) {
            return Err(CreateError::InvalidModuleName { name: first });
        }
        if !is_valid_name(third.as_str()) {
            return Err(CreateError::InvalidItemName { name: third });
        }
        let (category_name, category) = &cats[owner];
        let item = match Self::lookup_item(category, second.as_str()) {
            Some(item) => item,
            None => {
                return Err(
                    CreateError::ItemNotInCategory {
                        category: category_name.clone(),
                        item_type: second,
                    },
                )
            },
        };
        if category.supports_dynamic_children() {
            Ok(
                self.create_cohesive_module_item(
                    category_name.as_str(),
                    first.as_str(),
                    second.as_str(),
                    third.as_str(),
                    item,
                ),
            )
        } else {
            Ok(
                self.create_static_category_item(
                    category_name.as_str(),
                    first.as_str(),
                    second.as_str(),
                    third.as_str(),
                    item,
                ),
            )
        }
    }

    /// Resolves a `Create` command to the plan of the item to create.
    pub fn handle_create(&self, cmd: &Commands) -> (r: Result<CreatePlan, CreateError>)
        ensures
            match cmd {
                Commands::Create { path } => create_outcome(*self, path@, r),
                _ => r is Err && r->Err_0 is InvalidCommand,
            },
    {
        match cmd {
            Commands::Create { path } => self.plan_create(path.as_str()),
            _ => Err(CreateError::InvalidCommand),
        }
    }

    /// The categories that a `List` command shows: all of them in order, or
    /// the first one with the name asked for.
    pub fn handle_list(&self, cmd: &Commands) -> (r: Result<Vec<&(String, Category)>, ListError>)
        ensures
            match cmd {
                Commands::List { category: None } => r is Ok && r->Ok_0@.len()
                    == self.config.project.structure@.len() && forall|i: int|
                    0 <= i < r->Ok_0@.len() ==> *#[trigger] r->Ok_0@[i]
                        == self.config.project.structure@[i],
                Commands::List { category: Some(name) } => match key_index(
                    self.config.project.structure@,
                    name@,
                ) {
                    Some(i) => r is Ok && r->Ok_0@.len() == 1 && *r->Ok_0@[0]
                        == self.config.project.structure@[i],
                    None => r is Err && (r->Err_0 matches ListError::CategoryNotFound { name: n }
                        && n@ == name@),
                },
                _ => r is Err && r->Err_0 is InvalidCommand,
            },
    {
        let cats = &self.config.project.structure;
        match cmd {
            Commands::List { category: None } => {
                let mut out: Vec<&(String, Category)> = Vec::new();
                let mut i: usize = 0;
                while i < cats.len()
                    invariant
                        cats == &self.config.project.structure,
                        i <= cats@.len(),
                        out@.len() == i,
                        forall|j: int| 0 <= j < i ==> *#[trigger] out@[j] == cats@[j],
                    decreases cats.len() - i,
                {
                    out.push(&cats[i]);
                    i = i + 1;
                }
                Ok(out)
            },
            Commands::List { category: Some(name) } => match find_key(cats, name.as_str()) {
                Some(i) => {
                    let mut out: Vec<&(String, Category)> = Vec::new();
                    out.push(&cats[i]);
                    Ok(out)
                },
                None => Err(ListError::CategoryNotFound { name: name.clone() }),
            },
            _ => Err(ListError::InvalidCommand),
        }
    }
}

} // verus!

//! The project configuration: categories, their static and dynamic item
//! types, and the validation of the whole structure.
use crate::lookup::{
    distinct_names, entry_names, find_key, key_index, lemma_distinct_names, lemma_key_index,
    lemma_key_index_prefix, names_of,
};
use vstd::prelude::*;

verus! {

/// An item's template file and the extension of the file made from it.
#[derive(Clone, Debug)]
pub struct Item {
    pub template: String,
    pub file_extension: String,
}

/// One top-level grouping of the project.
#[derive(Clone, Debug)]
pub struct Category {
    pub description: Option<String>,
    /// Static item types, by name.
    pub children: Option<Vec<(String, Item)>>,
    pub allow_dynamic_children: Option<bool>,
    /// Item types of dynamically named modules, by name.
    pub default_structure: Option<Vec<(String, Item)>>,
}

/// Project metadata and the categories, in their stored order.
#[derive(Clone, Debug)]
pub struct ProjectInfo {
    pub name: String,
    pub version: String,
    pub structure: Vec<(String, Category)>,
}

#[derive(Clone, Debug)]
pub struct ProjectConfig {
    pub project: ProjectInfo,
}

/// The row of the category table that a category falls in.
#[derive(Clone, Copy, Debug, PartialEq, Eq, Structural)]
pub enum CategoryShape {
    /// Non-empty children, dynamic flag absent or false, no default structure.
    PureStatic,
    /// No children, dynamic flag true, non-empty default structure.
    PureDynamic,
    /// Children, dynamic flag true, default structure.
    Hybrid,
    /// Nothing at all.
    NoContent,
    /// No children and the dynamic flag false.
    DynamicDisabled,
    /// No children, dynamic flag true, no default structure.
    DynamicWithoutTemplate,
    /// Empty children, dynamic flag absent or false, no default structure.
    EmptyStatic,
    /// No children, dynamic flag true, empty default structure (one of the
    /// other combinations, named apart for its message).
    EmptyDynamic,
    /// Any other combination.
    Other,
}

#[derive(Clone, Copy, Debug, PartialEq, Eq, Structural)]
pub enum ConfigErrorKind {
    EmptyProjectName,
    EmptyProjectVersion,
    EmptyStructure,
    /// The category has no content at all.
    NoContent,
    /// Dynamic children are disabled and there are no static children.
    DynamicDisabled,
    /// Dynamic children are allowed but there is no default structure.
    MissingDefaultStructure,
    /// Static children are empty and dynamic children are not allowed.
    EmptyChildren,
    /// Dynamic children are allowed but the default structure is empty.
    EmptyDefaultStructure,
    /// A combination that no row of the category table allows.
    InvalidCategory,
    /// A category name that an earlier category already has.
    DuplicateCategory,
    /// An item type name that an earlier item of the same map already has.
    DuplicateItem,
    EmptyTemplate,
    EmptyFileExtension,
}

/// A validation failure: its kind, the category and item it names (empty
/// where the failure concerns no category or no item).
#[derive(Clone, Debug)]
pub struct ConfigError {
    pub kind: ConfigErrorKind,
    pub category: String,
    pub item: String,
}

impl View for ConfigError {
    type V = (ConfigErrorKind, Seq<char>, Seq<char>);

    open spec fn view(&self) -> Self::V {
        (self.kind, self.category@, self.item@)
    }
}

pub open spec fn not_dynamic(flag: Option<bool>) -> bool {
    flag is None || flag == Some(false)
}

pub open spec fn shape_of(c: Category) -> CategoryShape {
    match (c.children, c.allow_dynamic_children, c.default_structure) {
        (Some(ch), flag, None) if not_dynamic(flag) => if ch@.len() > 0 {
            CategoryShape::PureStatic
        } else {
            CategoryShape::EmptyStatic
        },
        (None, Some(true), Some(d)) if d@.len() > 0 => CategoryShape::PureDynamic,
        (None, Some(true), Some(_)) => CategoryShape::EmptyDynamic,
        (Some(_), Some(true), Some(_)) => CategoryShape::Hybrid,
        (None, None, None) => CategoryShape::NoContent,
        (None, Some(false), _) => CategoryShape::DynamicDisabled,
        (None, Some(true), None) => CategoryShape::DynamicWithoutTemplate,
        _ => CategoryShape::Other,
    }
}

/// The valid rows: pure static, pure dynamic, hybrid.
pub open spec fn is_valid_shape(shape: CategoryShape) -> bool {
    shape == CategoryShape::PureStatic || shape == CategoryShape::PureDynamic || shape
        == CategoryShape::Hybrid
}

/// The error of a category in an invalid row.
pub open spec fn shape_error(shape: CategoryShape) -> ConfigErrorKind {
    match shape {
        CategoryShape::NoContent => ConfigErrorKind::NoContent,
        CategoryShape::DynamicDisabled => ConfigErrorKind::DynamicDisabled,
        CategoryShape::DynamicWithoutTemplate => ConfigErrorKind::MissingDefaultStructure,
        CategoryShape::EmptyStatic => ConfigErrorKind::EmptyChildren,
        CategoryShape::EmptyDynamic => ConfigErrorKind::EmptyDefaultStructure,
        _ => ConfigErrorKind::InvalidCategory,
    }
}

/// What is wrong with an item: an empty template path, else an empty extension.
pub open spec fn item_fault(item: Item) -> Option<ConfigErrorKind> {
    if item.template@.len() == 0 {
        Some(ConfigErrorKind::EmptyTemplate)
    } else if item.file_extension@.len() == 0 {
        Some(ConfigErrorKind::EmptyFileExtension)
    } else {
        None
    }
}

/// The fault of the first faulty item, with that item's name: a name that
/// an earlier item has, else an empty template or extension.
pub open spec fn items_fault(items: Seq<(String, Item)>) -> Option<(ConfigErrorKind, Seq<char>)>
    decreases items.len(),
{
    if items.len() == 0 {
        None
    } else {
        match items_fault(items.drop_last()) {
            Some(f) => Some(f),
            None => if key_index(items.drop_last(), items.last().0@) is Some {
                Some((ConfigErrorKind::DuplicateItem, items.last().0@))
            } else {
                match item_fault(items.last().1) {
                    Some(k) => Some((k, items.last().0@)),
                    None => None,
                }
            },
        }
    }
}

pub open spec fn opt_items(items: Option<Vec<(String, Item)>>) -> Seq<(String, Item)> {
    match items {
        Some(v) => v@,
        None => seq![],
    }
}

/// The first fault of a category, with the name of the item it concerns
/// (empty for a fault of the category's shape). Static children are checked
/// before the default structure.
pub open spec fn category_fault(c: Category) -> Option<(ConfigErrorKind, Seq<char>)> {
    let shape = shape_of(c);
    if !is_valid_shape(shape) {
        Some((shape_error(shape), seq![]))
    } else {
        match items_fault(opt_items(c.children)) {
            Some(f) => Some(f),
            None => items_fault(opt_items(c.default_structure)),
        }
    }
}

/// The first fault among the categories, as an error view: a name that an
/// earlier category has, else the category's own first fault.
pub open spec fn categories_fault(cats: Seq<(String, Category)>) -> Option<
    (ConfigErrorKind, Seq<char>, Seq<char>),
>
    decreases cats.len(),
{
    if cats.len() == 0 {
        None
    } else {
        match categories_fault(cats.drop_last()) {
            Some(f) => Some(f),
            None => if key_index(cats.drop_last(), cats.last().0@) is Some {
                Some((ConfigErrorKind::DuplicateCategory, cats.last().0@, seq![]))
            } else {
                match category_fault(cats.last().1) {
                    Some((k, item)) => Some((k, cats.last().0@, item)),
                    None => None,
                }
            },
        }
    }
}

/// The first fault of a configuration: its metadata, then its categories in order.
pub open spec fn config_fault(cfg: ProjectConfig) -> Option<(ConfigErrorKind, Seq<char>, Seq<char>)> {
    let p = cfg.project;
    if p.name@.len() == 0 {
        Some((ConfigErrorKind::EmptyProjectName, seq![], seq![]))
    } else if p.version@.len() == 0 {
        Some((ConfigErrorKind::EmptyProjectVersion, seq![], seq![]))
    } else if p.structure@.len() == 0 {
        Some((ConfigErrorKind::EmptyStructure, seq![], seq![]))
    } else {
        categories_fault(p.structure@)
    }
}

pub open spec fn supports_dynamic(c: Category) -> bool {
    c.allow_dynamic_children == Some(true)
}

/// Every item has a non-empty template path and a non-empty extension.
pub open spec fn items_complete(items: Seq<(String, Item)>) -> bool {
    forall|j: int| 0 <= j < items.len() ==> item_fault(#[trigger] items[j].1) is None
}

/// A category falls in a valid row of the category table, and its static
/// children and its default structure each have distinct names and complete
/// items.
pub open spec fn category_ok(c: Category) -> bool {
    &&& is_valid_shape(shape_of(c))
    &&& items_complete(opt_items(c.children))
    &&& distinct_names(opt_items(c.children))
    &&& items_complete(opt_items(c.default_structure))
    &&& distinct_names(opt_items(c.default_structure))
}

proof fn lemma_items_fault_none(items: Seq<(String, Item)>)
    ensures
        items_fault(items) is None <==> (items_complete(items) && distinct_names(items)),
    decreases items.len(),
{
    if items.len() > 0 {
        let prev = items.drop_last();
        let n = prev.len() as int;
        lemma_items_fault_none(prev);
        lemma_key_index(prev, items[n].0@);
        assert forall|j: int| 0 <= j < n implies prev[j] == items[j] by {}
        if items_complete(items) && distinct_names(items) {
            assert(item_fault(items[n].1) is None);
            assert forall|j: int| 0 <= j < n implies (#[trigger] prev[j]).0@ != items[n].0@ by {
                assert(items[j].0@ != items[n].0@);
            }
        }
        if items_fault(items) is None {
            assert forall|a: int, b: int| 0 <= a < b < items.len() implies items[a].0@
                != items[b].0@ by {
                if b < n {
                    assert(prev[a].0@ != prev[b].0@);
                } else {
                    assert(prev[a].0@ != items[n].0@);
                }
            }
            assert forall|j: int| 0 <= j < items.len() implies item_fault(
                #[trigger] items[j].1,
            ) is None by {
                if j < n {
                    assert(item_fault(prev[j].1) is None);
                }
            }
        }
    }
}

proof fn lemma_categories_fault_none(cats: Seq<(String, Category)>)
    ensures
        categories_fault(cats) is None <==> (distinct_names(cats) && forall|i: int|
            0 <= i < cats.len() ==> category_fault(#[trigger] cats[i].1) is None),
    decreases cats.len(),
{
    if cats.len() > 0 {
        let prev = cats.drop_last();
        let n = prev.len() as int;
        lemma_categories_fault_none(prev);
        lemma_key_index(prev, cats[n].0@);
        assert forall|j: int| 0 <= j < n implies prev[j] == cats[j] by {}
        if distinct_names(cats) && forall|i: int|
            0 <= i < cats.len() ==> category_fault(#[trigger] cats[i].1) is None {
            assert(category_fault(cats[n].1) is None);
            assert forall|j: int| 0 <= j < n implies (#[trigger] prev[j]).0@ != cats[n].0@ by {
                assert(cats[j].0@ != cats[n].0@);
            }
        }
        if categories_fault(cats) is None {
            assert forall|a: int, b: int| 0 <= a < b < cats.len() implies cats[a].0@
                != cats[b].0@ by {
                if b < n {
                    assert(prev[a].0@ != prev[b].0@);
                } else {
                    assert(prev[a].0@ != cats[n].0@);
                }
            }
            assert forall|j: int| 0 <= j < cats.len() implies category_fault(
                #[trigger] cats[j].1,
            ) is None by {
                if j < n {
                    assert(category_fault(prev[j].1) is None);
                }
            }
        }
    }
}

/// Validation of a configuration succeeds exactly when its name, version and
/// structure are non-empty, no two categories share a name, and every
/// category falls in one of the valid rows of the category table (pure
/// static, pure dynamic, hybrid) with distinct item names and non-empty
/// template paths and extensions. Each category falls in exactly one row,
/// since `shape_of` picks it.
pub proof fn validation_accepts_valid_rows(cfg: ProjectConfig)
    ensures
        config_fault(cfg) is None <==> {
            &&& cfg.project.name@.len() > 0
            &&& cfg.project.version@.len() > 0
            &&& cfg.project.structure@.len() > 0
            &&& distinct_names(cfg.project.structure@)
            &&& forall|i: int|
                0 <= i < cfg.project.structure@.len() ==> category_ok(
                    #[trigger] cfg.project.structure@[i].1,
                )
        },
{
    let cats = cfg.project.structure@;
    lemma_categories_fault_none(cats);
    assert forall|i: int| 0 <= i < cats.len() implies (category_fault(#[trigger] cats[i].1) is None
        <==> category_ok(cats[i].1)) by {
        lemma_items_fault_none(opt_items(cats[i].1.children));
        lemma_items_fault_none(opt_items(cats[i].1.default_structure));
    }
}

fn config_error(kind: ConfigErrorKind, category: &str, item: &str) -> (e: ConfigError)
    ensures
        e@ == (kind, category@, item@),
{
    ConfigError { kind, category: category.to_string(), item: item.to_string() }
}

pub open spec fn config_error_message(e: ConfigError) -> Seq<char> {
    let c = e.category@;
    let i = e.item@;
    match e.kind {
        ConfigErrorKind::EmptyProjectName => "Project name cannot be empty"@,
        ConfigErrorKind::EmptyProjectVersion => "Project version cannot be empty"@,
        ConfigErrorKind::EmptyStructure => "Project structure cannot be empty"@,
        ConfigErrorKind::NoContent => "Category '"@ + c
            + "' must have either children or dynamic support"@,
        ConfigErrorKind::DynamicDisabled => "Category '"@ + c
            + "' has dynamic children disabled but no static children"@,
        ConfigErrorKind::MissingDefaultStructure => "Category '"@ + c
            + "' allows dynamic children but has no default structure"@,
        ConfigErrorKind::EmptyChildren => "Category '"@ + c
            + "' has empty children but no dynamic support"@,
        ConfigErrorKind::EmptyDefaultStructure => "Category '"@ + c
            + "' allows dynamic children but has empty default structure"@,
        ConfigErrorKind::InvalidCategory => "Category '"@ + c + "' has invalid configuration"@,
        ConfigErrorKind::DuplicateCategory => "Category '"@ + c + "' is defined more than once"@,
        ConfigErrorKind::DuplicateItem => "Item '"@ + i + "' in category '"@ + c
            + "' is defined more than once"@,
        ConfigErrorKind::EmptyTemplate => "Item '"@ + i + "' in category '"@ + c
            + "' has empty template path"@,
        ConfigErrorKind::EmptyFileExtension => "Item '"@ + i + "' in category '"@ + c
            + "' has empty file extension"@,
    }
}

fn sentence(lead: &str, name: &String, tail: &str) -> (r: String)
    ensures
        r@ == lead@ + name@ + tail@,
{
    let mut out = lead.to_string();
    out.append(name.as_str());
    out.append(tail);
    out
}

impl ConfigError {
    /// The error as text, naming its category and item.
    pub fn message(&self) -> (r: String)
        ensures
            r@ == config_error_message(*self),
    {
        let c = &self.category;
        match self.kind {
            ConfigErrorKind::EmptyProjectName => "Project name cannot be empty".to_string(),
            ConfigErrorKind::EmptyProjectVersion => "Project version cannot be empty".to_string(),
            ConfigErrorKind::EmptyStructure => "Project structure cannot be empty".to_string(),
            ConfigErrorKind::NoContent => sentence(
                "Category '",
                c,
                "' must have either children or dynamic support",
            ),
            ConfigErrorKind::DynamicDisabled => sentence(
                "Category '",
                c,
                "' has dynamic children disabled but no static children",
            ),
            ConfigErrorKind::MissingDefaultStructure => sentence(
                "Category '",
                c,
                "' allows dynamic children but has no default structure",
            ),
            ConfigErrorKind::EmptyChildren => sentence(
                "Category '",
                c,
                "' has empty children but no dynamic support",
            ),
            ConfigErrorKind::EmptyDefaultStructure => sentence(
                "Category '",
                c,
                "' allows dynamic children but has empty default structure",
            ),
            ConfigErrorKind::InvalidCategory => sentence(
                "Category '",
                c,
                "' has invalid configuration",
            ),
            ConfigErrorKind::DuplicateCategory => sentence(
                "Category '",
                c,
                "' is defined more than once",
            ),
            ConfigErrorKind::DuplicateItem => {
                let mut out = sentence("Item '", &self.item, "' in category '");
                out.append(c.as_str());
                out.append("' is defined more than once");
                out
            },
            ConfigErrorKind::EmptyTemplate => {
                let mut out = sentence("Item '", &self.item, "' in category '");
                out.append(c.as_str());
                out.append("' has empty template path");
                out
            },
            ConfigErrorKind::EmptyFileExtension => {
                let mut out = sentence("Item '", &self.item, "' in category '");
                out.append(c.as_str());
                out.append("' has empty file extension");
                out
            },
        }
    }
}

impl Item {
    /// Checks that the template path and the file extension are non-empty.
    pub fn validate(&self, category_name: &str, item_name: &str) -> (r: Result<(), ConfigError>)
        ensures
            match r {
                Ok(()) => item_fault(*self) is None,
                Err(e) => item_fault(*self) == Some(e.kind) && e.category@ == category_name@
                    && e.item@ == item_name@,
            },
    {
        if self.template.as_str().unicode_len() == 0 {
            return Err(config_error(ConfigErrorKind::EmptyTemplate, category_name, item_name));
        }
        if self.file_extension.as_str().unicode_len() == 0 {
            return Err(
                config_error(ConfigErrorKind::EmptyFileExtension, category_name, item_name),
            );
        }
        Ok(())
    }
}

proof fn lemma_items_fault_push(items: Seq<(String, Item)>, e: (String, Item))
    ensures
        items_fault(items.push(e)) == match items_fault(items) {
            Some(f) => Some(f),
            None => if key_index(items, e.0@) is Some {
                Some((ConfigErrorKind::DuplicateItem, e.0@))
            } else {
                match item_fault(e.1) {
                    Some(k) => Some((k, e.0@)),
                    None => None,
                }
            },
        },
{
    assert(items.push(e).drop_last() =~= items);
}

proof fn lemma_categories_fault_push(cats: Seq<(String, Category)>, e: (String, Category))
    ensures
        categories_fault(cats.push(e)) == match categories_fault(cats) {
            Some(f) => Some(f),
            None => if key_index(cats, e.0@) is Some {
                Some((ConfigErrorKind::DuplicateCategory, e.0@, seq![]))
            } else {
                match category_fault(e.1) {
                    Some((k, item)) => Some((k, e.0@, item)),
                    None => None,
                }
            },
        },
{
    assert(cats.push(e).drop_last() =~= cats);
}

/// Checks every item in order and stops at the first faulty one.
fn validate_items(items: &Vec<(String, Item)>, category_name: &str) -> (r: Result<(), ConfigError>)
    ensures
        match r {
            Ok(()) => items_fault(items@) is None,
            Err(e) => items_fault(items@) == Some((e.kind, e.item@)) && e.category@
                == category_name@,
        },
{
    let mut i: usize = 0;
    while i < items.len()
        invariant
            i <= items@.len(),
            items_fault(items@.take(i as int)) is None,
        decreases items.len() - i,
    {
        proof {
            assert(items@.take(i + 1) =~= items@.take(i as int).push(items@[i as int]));
            lemma_items_fault_push(items@.take(i as int), items@[i as int]);
        }
        let (name, item) = &items[i];
        proof {
            lemma_key_index_prefix(items@, i as int);
        }
        if let Some(j) = find_key(items, name.as_str()) {
            if j < i {
                proof {
                    lemma_items_fault_prefix(items@, i as int + 1);
                }
                return Err(config_error(ConfigErrorKind::DuplicateItem, category_name, name.as_str()));
            }
        }
        match item.validate(category_name, name.as_str()) {
            Ok(()) => {},
            Err(e) => {
                proof {
                    lemma_items_fault_prefix(items@, i as int + 1);
                }
                return Err(e);
            },
        }
        i = i + 1;
    }
    assert(items@.take(i as int) =~= items@);
    Ok(())
}

/// A fault in a prefix is the fault of the whole list.
proof fn lemma_items_fault_prefix(items: Seq<(String, Item)>, n: int)
    requires
        0 <= n <= items.len(),
        items_fault(items.take(n)) is Some,
    ensures
        items_fault(items) == items_fault(items.take(n)),
    decreases items.len() - n,
{
    if n < items.len() {
        assert(items.take(n + 1) =~= items.take(n).push(items[n]));
        lemma_items_fault_push(items.take(n), items[n]);
        lemma_items_fault_prefix(items, n + 1);
    } else {
        assert(items.take(n) =~= items);
    }
}

/// A fault in a prefix is the fault of the whole list.
proof fn lemma_categories_fault_prefix(cats: Seq<(String, Category)>, n: int)
    requires
        0 <= n <= cats.len(),
        categories_fault(cats.take(n)) is Some,
    ensures
        categories_fault(cats) == categories_fault(cats.take(n)),
    decreases cats.len() - n,
{
    if n < cats.len() {
        assert(cats.take(n + 1) =~= cats.take(n).push(cats[n]));
        lemma_categories_fault_push(cats.take(n), cats[n]);
        lemma_categories_fault_prefix(cats, n + 1);
    } else {
        assert(cats.take(n) =~= cats);
    }
}

impl Category {
    /// The row of the category table that this category falls in.
    pub fn shape(&self) -> (r: CategoryShape)
        ensures
            r == shape_of(*self),
    {
        match (&self.children, &self.allow_dynamic_children, &self.default_structure) {
            (Some(ch), None, None) | (Some(ch), Some(false), None) => if ch.len() > 0 {
                CategoryShape::PureStatic
            } else {
                CategoryShape::EmptyStatic
            },
            (None, Some(true), Some(d)) if d.len() > 0 => CategoryShape::PureDynamic,
            (None, Some(true), Some(_)) => CategoryShape::EmptyDynamic,
            (Some(_), Some(true), Some(_)) => CategoryShape::Hybrid,
            (None, None, None) => CategoryShape::NoContent,
            (None, Some(false), _) => CategoryShape::DynamicDisabled,
            (None, Some(true), None) => CategoryShape::DynamicWithoutTemplate,
            _ => CategoryShape::Other,
        }
    }

    /// Checks the category against the category table, then its items:
    /// static children first, then the default structure.
    pub fn validate(&self, category_name: &str) -> (r: Result<(), ConfigError>)
        ensures
            match r {
                Ok(()) => category_fault(*self) is None,
                Err(e) => category_fault(*self) == Some((e.kind, e.item@)) && e.category@
                    == category_name@,
            },
    {
        let shape = self.shape();
        let kind = match shape {
            CategoryShape::PureStatic | CategoryShape::PureDynamic | CategoryShape::Hybrid => {
                None
            },
            CategoryShape::NoContent => Some(ConfigErrorKind::NoContent),
            CategoryShape::DynamicDisabled => Some(ConfigErrorKind::DynamicDisabled),
            CategoryShape::DynamicWithoutTemplate => Some(
                ConfigErrorKind::MissingDefaultStructure,
            ),
            CategoryShape::EmptyStatic => Some(ConfigErrorKind::EmptyChildren),
            CategoryShape::EmptyDynamic => Some(ConfigErrorKind::EmptyDefaultStructure),
            CategoryShape::Other => Some(ConfigErrorKind::InvalidCategory),
        };
        if let Some(k) = kind {
            proof {
                reveal_strlit("");
            }
            return Err(config_error(k, category_name, ""));
        }
        if let Some(children) = &self.children {
            validate_items(children, category_name)?;
        }
        if let Some(defaults) = &self.default_structure {
            validate_items(defaults, category_name)?;
        }
        Ok(())
    }

    /// The names of the static children, in order (none without children).
    pub fn get_item_names(&self) -> (r: Vec<String>)
        ensures
            r@.map_values(|s: String| s@) == entry_names(opt_items(self.children)),
            category_fault(*self) is None ==> r@.map_values(|s: String| s@).no_duplicates(),
    {
        proof {
            lemma_items_fault_none(opt_items(self.children));
            if category_fault(*self) is None {
                lemma_distinct_names(opt_items(self.children));
            }
        }
        match &self.children {
            Some(children) => names_of(children),
            None => {
                assert(Seq::<String>::empty().map_values(|s: String| s@) =~= entry_names(
                    opt_items(self.children),
                ));
                Vec::new()
            },
        }
    }

    /// The first static child named `name`.
    pub fn get_item(&self, name: &str) -> (r: Option<&Item>)
        ensures
            match key_index(opt_items(self.children), name@) {
                Some(i) => r == Some(&opt_items(self.children)[i].1),
                None => r is None,
            },
    {
        match &self.children {
            Some(children) => match find_key(children, name) {
                Some(i) => Some(&children[i].1),
                None => None,
            },
            None => None,
        }
    }

    /// Whether the category allows dynamically named modules.
    pub fn supports_dynamic_children(&self) -> (r: bool)
        ensures
            r == supports_dynamic(*self),
    {
        match self.allow_dynamic_children {
            Some(b) => b,
            None => false,
        }
    }

    /// The item types of dynamically named modules, if the category has them.
    pub fn get_default_structure(&self) -> (r: Option<&Vec<(String, Item)>>)
        ensures
            r == match &self.default_structure {
                Some(d) => Some(d),
                None => None::<&Vec<(String, Item)>>,
            },
    {
        match &self.default_structure {
            Some(d) => Some(d),
            None => None,
        }
    }
}

impl ProjectConfig {
    /// Checks the project metadata, then every category in order; stops at
    /// the first fault.
    pub fn validate(&self) -> (r: Result<(), ConfigError>)
        ensures
            match r {
                Ok(()) => config_fault(*self) is None,
                Err(e) => config_fault(*self) == Some(e@),
            },
    {
        proof {
            reveal_strlit("");
        }
        let p = &self.project;
        if p.name.as_str().unicode_len() == 0 {
            return Err(config_error(ConfigErrorKind::EmptyProjectName, "", ""));
        }
        if p.version.as_str().unicode_len() == 0 {
            return Err(config_error(ConfigErrorKind::EmptyProjectVersion, "", ""));
        }
        if p.structure.len() == 0 {
            return Err(config_error(ConfigErrorKind::EmptyStructure, "", ""));
        }
        let ghost cats = p.structure@;
        let mut i: usize = 0;
        while i < p.structure.len()
            invariant
                cats == p.structure@,
                p == &self.project,
                p.name@.len() > 0,
                p.version@.len() > 0,
                cats.len() > 0,
                i <= cats.len(),
                categories_fault(cats.take(i as int)) is None,
            decreases cats.len() - i,
        {
            proof {
                assert(cats.take(i + 1) =~= cats.take(i as int).push(cats[i as int]));
                lemma_categories_fault_push(cats.take(i as int), cats[i as int]);
            }
            let (name, category) = &p.structure[i];
            proof {
                lemma_key_index_prefix(cats, i as int);
            }
            if let Some(j) = find_key(&p.structure, name.as_str()) {
                if j < i {
                    proof {
                        reveal_strlit("");
                        lemma_categories_fault_prefix(cats, i as int + 1);
                    }
                    return Err(config_error(ConfigErrorKind::DuplicateCategory, name.as_str(), ""));
                }
            }
            match category.validate(name.as_str()) {
                Ok(()) => {},
                Err(e) => {
                    proof {
                        lemma_categories_fault_prefix(cats, i as int + 1);
                    }
                    return Err(e);
                },
            }
            i = i + 1;
        }
        assert(cats.take(i as int) =~= cats);
        Ok(())
    }

    /// The category names, in their stored order.
    pub fn get_categories(&self) -> (r: Vec<String>)
        ensures
            r@.map_values(|s: String| s@) == entry_names(self.project.structure@),
            config_fault(*self) is None ==> r@.map_values(|s: String| s@).no_duplicates(),
    {
        proof {
            validation_accepts_valid_rows(*self);
            if config_fault(*self) is None {
                lemma_distinct_names(self.project.structure@);
            }
        }
        names_of(&self.project.structure)
    }

    /// The first category named `name`.
    pub fn get_category(&self, name: &str) -> (r: Option<&Category>)
        ensures
            match key_index(self.project.structure@, name@) {
                Some(i) => r == Some(&self.project.structure@[i].1),
                None => r is None,
            },
    {
        match find_key(&self.project.structure, name) {
            Some(i) => Some(&self.project.structure[i].1),
            None => None,
        }
    }
}

} // verus!

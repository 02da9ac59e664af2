//! The older preset-driven creator: named sub-structures of folders, each
//! with one file made from a template.
use crate::lookup::{find_key, key_index};
use vstd::prelude::*;

verus! {

/// A folder's file: the template it comes from and the file's name.
#[derive(Clone, Debug)]
pub struct FileStructure {
    pub template: String,
    pub file: String,
}

/// Sub-structures by key; each maps folder names to their file.
pub struct Creator {
    pub source: String,
    pub data: Vec<(String, Vec<(String, FileStructure)>)>,
}

/// One file to create: its directory as path segments, its name (with
/// `extension` set as its extension, where there is one), the template it
/// comes from, the name substituted into that template, and whether the
/// directory is created first (else it must exist already).
#[derive(Clone, Debug)]
pub struct FileJob {
    pub directory: Vec<String>,
    pub file: String,
    pub extension: Option<String>,
    pub template: String,
    pub template_name: String,
    pub create_directory: bool,
}

#[derive(Clone, Debug)]
pub enum CreatorError {
    MissingSubStructure { key: String },
    MissingFileStructure { key: String },
}

pub open spec fn opt_view(o: Option<String>) -> Option<Seq<char>> {
    match o {
        Some(s) => Some(s@),
        None => None,
    }
}

impl View for FileJob {
    type V = (Seq<Seq<char>>, Seq<char>, Option<Seq<char>>, Seq<char>, Seq<char>, bool);

    open spec fn view(&self) -> Self::V {
        (
            self.directory@.map_values(|s: String| s@),
            self.file@,
            opt_view(self.extension),
            self.template@,
            self.template_name@,
            self.create_directory,
        )
    }
}

/// The job of each folder of a sub-structure, under `base`, in order: the
/// folder, created, and its file, made from its template with the folder's
/// name.
pub open spec fn folder_jobs(base: Seq<Seq<char>>, sub: Seq<(String, FileStructure)>) -> Seq<
    (Seq<Seq<char>>, Seq<char>, Option<Seq<char>>, Seq<char>, Seq<char>, bool),
> {
    sub.map_values(
        |e: (String, FileStructure)| (base.push(e.0@), e.1.file@, None, e.1.template@, e.0@, true),
    )
}

pub open spec fn jobs_view(jobs: Seq<FileJob>) -> Seq<
    (Seq<Seq<char>>, Seq<char>, Option<Seq<char>>, Seq<char>, Seq<char>, bool),
> {
    jobs.map_values(|j: FileJob| j@)
}

/// The data of a creator with no sub-structures.
pub fn default_data() -> (r: Vec<(String, Vec<(String, FileStructure)>)>)
    ensures
        r@.len() == 0,
{
    Vec::new()
}

fn copy_strings(v: &Vec<String>) -> (r: Vec<String>)
    ensures
        r@.map_values(|s: String| s@) == v@.map_values(|s: String| s@),
{
    let mut out: Vec<String> = Vec::new();
    let mut i: usize = 0;
    while i < v.len()
        invariant
            i <= v@.len(),
            out@.len() == i,
            forall|j: int| 0 <= j < i ==> (#[trigger] out@[j])@ == v@[j]@,
        decreases v.len() - i,
    {
        out.push(v[i].clone());
        i = i + 1;
    }
    assert(out@.map_values(|s: String| s@) =~= v@.map_values(|s: String| s@));
    out
}

impl Creator {
    pub fn new(source: String, data: Vec<(String, Vec<(String, FileStructure)>)>) -> (r: Self)
        ensures
            r.source == source,
            r.data == data,
    {
        Creator { source, data }
    }

    /// The sub-structure stored under `key`.
    fn get_sub_structure(&self, key: &str) -> (r: Result<&Vec<(String, FileStructure)>, CreatorError>)
        ensures
            match r {
                Ok(sub) => key_index(self.data@, key@) is Some && *sub == self.data@[key_index(
                    self.data@,
                    key@,
                )->0].1,
                Err(CreatorError::MissingSubStructure { key: k }) => key_index(self.data@, key@) is None
                    && k@ == key@,
                Err(_) => false,
            },
    {
        match find_key(&self.data, key) {
            Some(i) => Ok(&self.data[i].1),
            None => Err(CreatorError::MissingSubStructure { key: key.to_string() }),
        }
    }

    /// The file structure stored under `key` in a sub-structure.
    fn get_file_structure<'a>(sub: &'a Vec<(String, FileStructure)>, key: &str) -> (r: Result<
        &'a FileStructure,
        CreatorError,
    >)
        ensures
            match r {
                Ok(f) => key_index(sub@, key@) is Some && *f == sub@[key_index(sub@, key@)->0].1,
                Err(CreatorError::MissingFileStructure { key: k }) => key_index(sub@, key@) is None
                    && k@ == key@,
                Err(_) => false,
            },
    {
        match find_key(sub, key) {
            Some(i) => Ok(&sub[i].1),
            None => Err(CreatorError::MissingFileStructure { key: key.to_string() }),
        }
    }

    /// The jobs of every folder of the sub-structure `key`, under `base`.
    fn create(&self, key: &str, base: &Vec<String>) -> (r: Result<Vec<FileJob>, CreatorError>)
        ensures
            match r {
                Ok(jobs) => key_index(self.data@, key@) is Some && jobs_view(jobs@) == folder_jobs(
                    base@.map_values(|s: String| s@),
                    self.data@[key_index(self.data@, key@)->0].1@,
                ),
                Err(CreatorError::MissingSubStructure { key: k }) => key_index(self.data@, key@) is None
                    && k@ == key@,
                Err(_) => false,
            },
    {
        let sub = self.get_sub_structure(key)?;
        let ghost base_view = base@.map_values(|s: String| s@);
        let mut jobs: Vec<FileJob> = Vec::new();
        let mut i: usize = 0;
        while i < sub.len()
            invariant
                i <= sub@.len(),
                jobs@.len() == i,
                base_view == base@.map_values(|s: String| s@),
                forall|j: int| 0 <= j < i ==> (#[trigger] jobs@[j])@ == folder_jobs(base_view, sub@)[j],
            decreases sub.len() - i,
        {
            let (folder_name, folder) = &sub[i];
            let mut directory = copy_strings(base);
            directory.push(folder_name.clone());
            assert(directory@.map_values(|s: String| s@) =~= base_view.push(folder_name@));
            jobs.push(
                FileJob {
                    directory,
                    file: folder.file.clone(),
                    extension: None,
                    template: folder.template.clone(),
                    template_name: folder_name.clone(),
                    create_directory: true,
                },
            );
            i = i + 1;
        }
        assert(jobs_view(jobs@) =~= folder_jobs(base_view, sub@));
        Ok(jobs)
    }

    /// The jobs of the sub-structure `key` for the feature
    /// `source/key/main_folder_name`.
    pub fn create_feature(&self, key: &str, main_folder_name: &str) -> (r: Result<
        Vec<FileJob>,
        CreatorError,
    >)
        ensures
            match r {
                Ok(jobs) => key_index(self.data@, key@) is Some && jobs_view(jobs@) == folder_jobs(
                    seq![self.source@, key@, main_folder_name@],
                    self.data@[key_index(self.data@, key@)->0].1@,
                ),
                Err(CreatorError::MissingSubStructure { key: k }) => key_index(self.data@, key@) is None
                    && k@ == key@,
                Err(_) => false,
            },
    {
        let mut base: Vec<String> = Vec::new();
        base.push(self.source.clone());
        base.push(key.to_string());
        base.push(main_folder_name.to_string());
        assert(base@.map_values(|s: String| s@) =~= seq![self.source@, key@, main_folder_name@]);
        self.create(key, &base)
    }

    /// The jobs of the sub-structure `key` under `source/key`.
    pub fn create_core(&self, key: &str) -> (r: Result<Vec<FileJob>, CreatorError>)
        ensures
            match r {
                Ok(jobs) => key_index(self.data@, key@) is Some && jobs_view(jobs@) == folder_jobs(
                    seq![self.source@, key@],
                    self.data@[key_index(self.data@, key@)->0].1@,
                ),
                Err(CreatorError::MissingSubStructure { key: k }) => key_index(self.data@, key@) is None
                    && k@ == key@,
                Err(_) => false,
            },
    {
        let mut base: Vec<String> = Vec::new();
        base.push(self.source.clone());
        base.push(key.to_string());
        assert(base@.map_values(|s: String| s@) =~= seq![self.source@, key@]);
        self.create(key, &base)
    }

    /// The jobs of the sub-structure `key` under `source/key`.
    pub fn create_application(&self, key: &str) -> (r: Result<Vec<FileJob>, CreatorError>)
        ensures
            match r {
                Ok(jobs) => key_index(self.data@, key@) is Some && jobs_view(jobs@) == folder_jobs(
                    seq![self.source@, key@],
                    self.data@[key_index(self.data@, key@)->0].1@,
                ),
                Err(CreatorError::MissingSubStructure { key: k }) => key_index(self.data@, key@) is None
                    && k@ == key@,
                Err(_) => false,
            },
    {
        self.create_core(key)
    }

    /// The job of one component: `source/main_key/feature_name/sub_key/`, an
    /// existing directory, holds `component_name` with extension `tsx`, made
    /// from the template of `sub_key` in the sub-structure `main_key`.
    pub fn create_component_module(
        &self,
        main_key: &str,
        feature_name: &str,
        sub_key: &str,
        component_name: &str,
    ) -> (r: Result<FileJob, CreatorError>)
        ensures
            match r {
                Ok(job) => {
                    let sub = self.data@[key_index(self.data@, main_key@)->0].1@;
                    &&& key_index(self.data@, main_key@) is Some
                    &&& key_index(sub, sub_key@) is Some
                    &&& job@ == (
                        seq![self.source@, main_key@, feature_name@, sub_key@],
                        component_name@,
                        Some("tsx"@),
                        sub[key_index(sub, sub_key@)->0].1.template@,
                        component_name@,
                        false,
                    )
                },
                Err(CreatorError::MissingSubStructure { key }) => key_index(self.data@, main_key@)
                    is None && key@ == main_key@,
                Err(CreatorError::MissingFileStructure { key }) => {
                    let sub = self.data@[key_index(self.data@, main_key@)->0].1@;
                    key_index(self.data@, main_key@) is Some && key_index(sub, sub_key@) is None
                        && key@ == sub_key@
                },
            },
    {
        let sub = self.get_sub_structure(main_key)?;
        let file = Self::get_file_structure(sub, sub_key)?;
        let mut directory: Vec<String> = Vec::new();
        directory.push(self.source.clone());
        directory.push(main_key.to_string());
        directory.push(feature_name.to_string());
        directory.push(sub_key.to_string());
        assert(directory@.map_values(|s: String| s@) =~= seq![
            self.source@,
            main_key@,
            feature_name@,
            sub_key@,
        ]);
        Ok(
            FileJob {
                directory,
                file: component_name.to_string(),
                extension: Some("tsx".to_string()),
                template: file.template.clone(),
                template_name: component_name.to_string(),
                create_directory: false,
            },
        )
    }
}

} // verus!

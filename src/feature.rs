//! Feature folders: a fixed set of folders under `features/<name>`, each
//! with one placeholder file.
use vstd::prelude::*;

verus! {

#[derive(Clone, Debug)]
pub struct FolderConfig {
    pub file: String,
}

/// The folders of a feature, by name.
#[derive(Clone, Debug)]
pub struct FeatureConfig {
    pub feature_structure: Vec<(String, FolderConfig)>,
}

/// One folder to create and the file to write in it.
#[derive(Clone, Debug)]
pub struct FolderJob {
    pub directory: Vec<String>,
    pub file: String,
    pub content: String,
}

/// The text of each placeholder file.
pub open spec fn placeholder_content() -> Seq<char> {
    "Hello, Rust!"@
}

/// `features/<feature_name>/<folder>` holds the folder's file, for each
/// folder in order.
pub open spec fn feature_jobs(feature_name: Seq<char>, folders: Seq<(String, FolderConfig)>) -> Seq<
    (Seq<Seq<char>>, Seq<char>, Seq<char>),
> {
    folders.map_values(
        |e: (String, FolderConfig)|
            (seq!["features"@, feature_name, e.0@], e.1.file@, placeholder_content()),
    )
}

/// The folders and files of the feature `feature_name`.
pub fn create_feature(feature_name: &str, feature_config: &FeatureConfig) -> (r: Vec<FolderJob>)
    ensures
        r@.map_values(|j: FolderJob| (j.directory@.map_values(|s: String| s@), j.file@, j.content@))
            == feature_jobs(feature_name@, feature_config.feature_structure@),
{
    let folders = &feature_config.feature_structure;
    let mut jobs: Vec<FolderJob> = Vec::new();
    let mut i: usize = 0;
    while i < folders.len()
        invariant
            folders == &feature_config.feature_structure,
            i <= folders@.len(),
            jobs@.len() == i,
            forall|j: int|
                0 <= j < i ==> ((#[trigger] jobs@[j]).directory@.map_values(|s: String| s@),
                jobs@[j].file@, jobs@[j].content@) == feature_jobs(feature_name@, folders@)[j],
        decreases folders.len() - i,
    {
        let (folder_name, folder) = &folders[i];
        let mut directory: Vec<String> = Vec::new();
        directory.push("features".to_string());
        directory.push(feature_name.to_string());
        directory.push(folder_name.clone());
        assert(directory@.map_values(|s: String| s@) =~= seq![
            "features"@,
            feature_name@,
            folder_name@,
        ]);
        jobs.push(
            FolderJob {
                directory,
                file: folder.file.clone(),
                content: "Hello, Rust!".to_string(),
            },
        );
        i = i + 1;
    }
    assert(jobs@.map_values(
        |j: FolderJob| (j.directory@.map_values(|s: String| s@), j.file@, j.content@),
    ) =~= feature_jobs(feature_name@, folders@));
    jobs
}

} // verus!

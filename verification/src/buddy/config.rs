//! What a buddy is configured with.

use vstd::prelude::*;
use vstd::std_specs::convert::FromSpecImpl;
use crate::ais::assistant::CreateConfig;
use crate::text::texts;

verus! {

/// The settings of one buddy.
#[derive(Debug, Clone)]
pub struct Config {
    /// Display name of the assistant.
    pub name: String,
    /// Model the assistant runs on.
    pub model: String,
    /// File that holds the assistant's instructions.
    pub instructions_file: String,
    /// Groups of source files to hand to the assistant.
    pub file_bundles: Vec<FileBundle>,
}

/// A group of source files that are handed over as one file.
#[derive(Debug, Clone)]
pub struct FileBundle {
    pub bundle_name: String,
    /// Directory the files are taken from.
    pub src_dir: String,
    /// Extension of the bundle file.
    pub dst_ext: String,
    /// Patterns of the files to take.
    pub src_globs: Vec<String>,
}

/// A [`FileBundle`] as plain text.
pub struct FileBundleView {
    pub bundle_name: Seq<char>,
    pub src_dir: Seq<char>,
    pub dst_ext: Seq<char>,
    pub src_globs: Seq<Seq<char>>,
}

impl View for FileBundle {
    type V = FileBundleView;

    open spec fn view(&self) -> FileBundleView {
        FileBundleView {
            bundle_name: self.bundle_name@,
            src_dir: self.src_dir@,
            dst_ext: self.dst_ext@,
            src_globs: texts(self.src_globs@),
        }
    }
}

/// The bundles in `bundles`, as plain text.
pub open spec fn bundle_views(bundles: Seq<FileBundle>) -> Seq<FileBundleView> {
    bundles.map_values(|bundle: FileBundle| bundle@)
}

impl<'a> From<&'a Config> for CreateConfig {
    fn from(config: &'a Config) -> (create: CreateConfig) {
        CreateConfig { name: config.name.clone(), model: config.model.clone() }
    }
}

impl<'a> FromSpecImpl<&'a Config> for CreateConfig {
    open spec fn obeys_from_spec() -> bool {
        true
    }

    open spec fn from_spec(config: &'a Config) -> CreateConfig {
        CreateConfig { name: config.name, model: config.model }
    }
}

} // verus!

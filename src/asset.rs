use vstd::prelude::*;

verus! {

/// Version of the model asset layout that this library writes and reads.
pub const MODEL_VERSION: u32 = 1;

/// Version of the scene asset layout that this library writes and reads.
pub const SCENE_VERSION: u32 = 1;

/// Version of the pipeline asset layout that this library writes and reads.
pub const PIPELINE_VERSION: u32 = 1;

/// The kind of content that an asset file carries.
#[derive(Clone, Copy, Debug, PartialEq, Eq, Structural)]
pub enum AssetType {
    Model,
    Scene,
    Pipeline,
}

/// The display name of an asset kind.
pub open spec fn asset_type_name(t: AssetType) -> Seq<char> {
    match t {
        AssetType::Model => "Model"@,
        AssetType::Scene => "Scene"@,
        AssetType::Pipeline => "Pipeline"@,
    }
}

impl AssetType {
    pub fn name(&self) -> (r: &'static str)
        ensures
            r@ == asset_type_name(*self),
    {
        match self {
            AssetType::Model => "Model",
            AssetType::Scene => "Scene",
            AssetType::Pipeline => "Pipeline",
        }
    }
}

/// Why an asset could not be read, written or interpreted.
#[derive(Debug)]
pub enum AssetError {
    FileError(String),
    ArchiveError(String),
    DataError(String),
    JsonError(String),
    /// The asset holds another kind than the one asked for: (expected, found).
    IncorrectType(&'static str, &'static str),
    OldVersion,
}

/// One asset as stored in an archive: its kind, layout version, a JSON
/// description and a binary blob.
pub struct AssetFile {
    pub(crate) asset_type: AssetType,
    pub(crate) version: u32,
    pub(crate) json: String,
    pub(crate) blob: Vec<u8>,
}

/// What an asset file holds, as mathematical values.
pub struct AssetFileView {
    pub asset_type: AssetType,
    pub version: u32,
    pub json: Seq<char>,
    pub blob: Seq<u8>,
}

impl View for AssetFile {
    type V = AssetFileView;

    closed spec fn view(&self) -> AssetFileView {
        AssetFileView {
            asset_type: self.asset_type,
            version: self.version,
            json: self.json@,
            blob: self.blob@,
        }
    }
}

impl AssetFile {
    pub fn new(asset_type: AssetType, version: u32, json: String, blob: Vec<u8>) -> (r: AssetFile)
        ensures
            r@.asset_type == asset_type,
            r@.version == version,
            r@.json == json@,
            r@.blob == blob@,
    {
        AssetFile { asset_type, version, json, blob }
    }

    pub fn asset_type(&self) -> (r: AssetType)
        ensures
            r == self@.asset_type,
    {
        self.asset_type
    }

    pub fn version(&self) -> (r: u32)
        ensures
            r == self@.version,
    {
        self.version
    }

    pub fn json(&self) -> (r: &String)
        ensures
            r@ == self@.json,
    {
        &self.json
    }

    pub fn blob(&self) -> (r: &Vec<u8>)
        ensures
            r@ == self@.blob,
    {
        &self.blob
    }

    /// Splits the asset into its JSON description and its blob.
    pub fn into_parts(self) -> (r: (String, Vec<u8>))
        ensures
            r.0@ == self@.json,
            r.1@ == self@.blob,
    {
        (self.json, self.blob)
    }

    /// Checks that the asset is of the `expected` kind and no older than
    /// `min_version`; the kind is checked first.
    pub fn check_header(&self, expected: AssetType, min_version: u32) -> (r: Result<(), AssetError>)
        ensures
            r is Ok <==> (self@.asset_type == expected && self@.version >= min_version),
            self@.asset_type != expected ==> (r matches Err(AssetError::IncorrectType(e, f))
                && e@ == asset_type_name(expected) && f@ == asset_type_name(self@.asset_type)),
            self@.asset_type == expected && self@.version < min_version ==> (r matches Err(
                AssetError::OldVersion,
            )),
    {
        if self.asset_type != expected {
            return Err(AssetError::IncorrectType(expected.name(), self.asset_type.name()));
        }
        if self.version < min_version {
            return Err(AssetError::OldVersion);
        }
        Ok(())
    }
}

/// A value that can be turned into an asset file.
pub trait Asset: Sized {
    fn convert_to_asset(self) -> Result<AssetFile, AssetError>;
}

/// Whether a pipeline blends its output.
pub struct Blending {
    pub test: bool,
}

/// A pipeline with its compiled shader stages.
pub struct Pipeline {
    pub name: String,
    pub vertex_shader: Vec<u8>,
    pub fragment_shader: Vec<u8>,
    pub blending: Blending,
}

/// A pipeline as described by hand: the paths of its shader sources.
pub struct PipelineManifest {
    pub name: String,
    pub vertex_shader: String,
    pub fragment_shader: String,
    pub blending: Blending,
}

} // verus!

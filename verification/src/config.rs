use vstd::prelude::*;

verus! {

/// The abstract value of a configuration or of a builder: the four
/// fields, strings seen as character sequences.
pub struct ConfigView {
    pub project_id: Seq<char>,
    pub dataset: Seq<char>,
    pub access_token: Option<Seq<char>>,
    pub api_version: Option<Seq<char>>,
}

/// Connection settings for one project/dataset pair, immutable once built.
#[derive(Debug)]
pub struct SanityConfig {
    /// Identifier of the project the client talks to.
    pub project_id: String,
    /// Name of the dataset inside that project.
    pub dataset: String,
    /// Bearer token for authorized requests, if any.
    pub access_token: Option<String>,
    /// API version date stamp; a fixed default is used when absent.
    pub api_version: Option<String>,
}

impl View for SanityConfig {
    type V = ConfigView;

    open spec fn view(&self) -> ConfigView {
        ConfigView {
            project_id: self.project_id@,
            dataset: self.dataset@,
            access_token: self.access_token.deep_view(),
            api_version: self.api_version.deep_view(),
        }
    }
}

/// Step-wise builder for [`SanityConfig`]; each setter returns the
/// updated builder so that calls chain.
#[derive(Debug)]
pub struct SanityConfigBuilder {
    /// Identifier of the project the client talks to.
    pub project_id: String,
    /// Name of the dataset inside that project.
    pub dataset: String,
    /// Bearer token for authorized requests, if any.
    pub access_token: Option<String>,
    /// API version date stamp; left `None` for the default.
    pub api_version: Option<String>,
}

impl View for SanityConfigBuilder {
    type V = ConfigView;

    open spec fn view(&self) -> ConfigView {
        ConfigView {
            project_id: self.project_id@,
            dataset: self.dataset@,
            access_token: self.access_token.deep_view(),
            api_version: self.api_version.deep_view(),
        }
    }
}

impl SanityConfig {
    /// Starts a builder from the two required fields; the two optional
    /// ones begin empty.
    pub fn new(project_id: &str, dataset: &str) -> (b: SanityConfigBuilder)
        ensures
            b@ == (ConfigView {
                project_id: project_id@,
                dataset: dataset@,
                access_token: None,
                api_version: None,
            }),
    {
        SanityConfigBuilder {
            project_id: project_id.to_owned(),
            dataset: dataset.to_owned(),
            access_token: None,
            api_version: None,
        }
    }
}

impl SanityConfigBuilder {
    /// Replaces the project identifier.
    pub fn project_id(self, id: &str) -> (b: SanityConfigBuilder)
        ensures
            b@ == (ConfigView { project_id: id@, ..self@ }),
    {
        SanityConfigBuilder { project_id: id.to_owned(), ..self }
    }

    /// Replaces the dataset name.
    pub fn dataset(self, set: &str) -> (b: SanityConfigBuilder)
        ensures
            b@ == (ConfigView { dataset: set@, ..self@ }),
    {
        SanityConfigBuilder { dataset: set.to_owned(), ..self }
    }

    /// Sets the bearer token used for authorized requests.
    pub fn access_token(self, token: &str) -> (b: SanityConfigBuilder)
        ensures
            b@ == (ConfigView { access_token: Some(token@), ..self@ }),
    {
        SanityConfigBuilder { access_token: Some(token.to_owned()), ..self }
    }

    /// Sets the API version date stamp.
    pub fn api_version(self, version: &str) -> (b: SanityConfigBuilder)
        ensures
            b@ == (ConfigView { api_version: Some(version@), ..self@ }),
    {
        SanityConfigBuilder { api_version: Some(version.to_owned()), ..self }
    }

    /// Finishes the builder: the configuration holds exactly the
    /// builder's four fields.
    pub fn build(self) -> (c: SanityConfig)
        ensures
            c@ == self@,
    {
        SanityConfig {
            access_token: self.access_token,
            api_version: self.api_version,
            dataset: self.dataset,
            project_id: self.project_id,
        }
    }
}

/// Builder defaults: a configuration built straight from `new` carries
/// the two given strings and neither optional field.
pub proof fn lemma_build_defaults(b: SanityConfigBuilder, c: SanityConfig, p: Seq<char>, d: Seq<char>)
    requires
        b@ == (ConfigView { project_id: p, dataset: d, access_token: None, api_version: None }),
        c@ == b@,
    ensures
        c@.project_id == p,
        c@.dataset == d,
        c@.access_token is None,
        c@.api_version is None,
{
}

} // verus!

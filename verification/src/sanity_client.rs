use vstd::prelude::*;
use vstd::string::StringExecFns;
use crate::config::ConfigView;
use crate::config::SanityConfig;
use crate::json::JsonValue;
use crate::json::append_json;
use crate::json::json_text;
use crate::json::to_json;
use crate::encode::url_encode;
use crate::encode::url_encoded;

verus! {

/// An ordered batch of mutations, submitted as one request.
pub type Mutations = Vec<Mutation>;

/// One change to a stored document, tagged with how it is applied.
#[derive(Debug)]
pub enum Mutation {
    /// Create the document; fails remotely if the id exists.
    Create(JsonValue),
    /// Create the document or replace the one with the same id.
    CreateOrReplace(JsonValue),
    /// Create the document only if the id does not exist yet.
    CreateIfNotExists(JsonValue),
    /// Delete what the payload selects.
    Delete(JsonValue),
    /// Apply the payload as a patch.
    Patch(JsonValue),
}

/// The wire name of a mutation's tag.
pub open spec fn mutation_tag(m: Mutation) -> Seq<char> {
    match m {
        Mutation::Create(_) => "create"@,
        Mutation::CreateOrReplace(_) => "createOrReplace"@,
        Mutation::CreateIfNotExists(_) => "createIfNotExists"@,
        Mutation::Delete(_) => "delete"@,
        Mutation::Patch(_) => "patch"@,
    }
}

/// The document payload a mutation carries.
pub open spec fn mutation_doc(m: Mutation) -> JsonValue {
    match m {
        Mutation::Create(doc) => doc,
        Mutation::CreateOrReplace(doc) => doc,
        Mutation::CreateIfNotExists(doc) => doc,
        Mutation::Delete(doc) => doc,
        Mutation::Patch(doc) => doc,
    }
}

/// The JSON text of one mutation: an object of one member whose name is
/// the tag and whose value is the document.
pub open spec fn mutation_text(m: Mutation) -> Seq<char> {
    match m {
        Mutation::Create(doc) => "{\"create\":"@ + json_text(doc) + "}"@,
        Mutation::CreateOrReplace(doc) => "{\"createOrReplace\":"@ + json_text(doc) + "}"@,
        Mutation::CreateIfNotExists(doc) => "{\"createIfNotExists\":"@ + json_text(doc) + "}"@,
        Mutation::Delete(doc) => "{\"delete\":"@ + json_text(doc) + "}"@,
        Mutation::Patch(doc) => "{\"patch\":"@ + json_text(doc) + "}"@,
    }
}

/// A mutation's text is the object of one member whose name is the
/// mutation's tag and whose value is its document, unchanged.
pub proof fn lemma_mutation_text_shape(m: Mutation)
    ensures
        mutation_text(m) == "{\""@ + mutation_tag(m) + "\":"@ + json_text(mutation_doc(m)) + "}"@,
{
    reveal_strlit("{\"");
    reveal_strlit("\":");
    reveal_strlit("{\"create\":");
    reveal_strlit("{\"createOrReplace\":");
    reveal_strlit("{\"createIfNotExists\":");
    reveal_strlit("{\"delete\":");
    reveal_strlit("{\"patch\":");
    reveal_strlit("create");
    reveal_strlit("createOrReplace");
    reveal_strlit("createIfNotExists");
    reveal_strlit("delete");
    reveal_strlit("patch");
    match m {
        Mutation::Create(doc) => {
            assert(mutation_text(m) =~= "{\""@ + mutation_tag(m) + "\":"@ + json_text(doc) + "}"@);
        },
        Mutation::CreateOrReplace(doc) => {
            assert(mutation_text(m) =~= "{\""@ + mutation_tag(m) + "\":"@ + json_text(doc) + "}"@);
        },
        Mutation::CreateIfNotExists(doc) => {
            assert(mutation_text(m) =~= "{\""@ + mutation_tag(m) + "\":"@ + json_text(doc) + "}"@);
        },
        Mutation::Delete(doc) => {
            assert(mutation_text(m) =~= "{\""@ + mutation_tag(m) + "\":"@ + json_text(doc) + "}"@);
        },
        Mutation::Patch(doc) => {
            assert(mutation_text(m) =~= "{\""@ + mutation_tag(m) + "\":"@ + json_text(doc) + "}"@);
        },
    }
}

/// The comma-separated texts of a batch of mutations.
pub open spec fn mutations_items_text(ms: Seq<Mutation>) -> Seq<char>
    decreases ms.len(),
{
    if ms.len() == 0 {
        Seq::empty()
    } else if ms.len() == 1 {
        mutation_text(ms.last())
    } else {
        mutations_items_text(ms.drop_last()) + ","@ + mutation_text(ms.last())
    }
}

/// The request body of a mutate call: the batch inside the
/// `{"mutations":[...]}` envelope.
pub open spec fn mutations_body_text(ms: Seq<Mutation>) -> Seq<char> {
    "{\"mutations\":["@ + mutations_items_text(ms) + "]}"@
}

/// A batch of one create-or-replace mutation serializes to
/// `{"createOrReplace": <doc>}` inside the `{"mutations":[...]}`
/// envelope, with the document's own text unchanged.
pub proof fn lemma_create_or_replace_body(doc: JsonValue)
    ensures
        mutations_body_text(seq![Mutation::CreateOrReplace(doc)])
            == "{\"mutations\":[{\"createOrReplace\":"@ + json_text(doc) + "}]}"@,
{
    let m = Mutation::CreateOrReplace(doc);
    assert(seq![m].last() == m);
    assert(mutations_items_text(seq![m]) == mutation_text(m));
    reveal_strlit("{\"mutations\":[");
    reveal_strlit("{\"createOrReplace\":");
    reveal_strlit("}");
    reveal_strlit("]}");
    reveal_strlit("{\"mutations\":[{\"createOrReplace\":");
    reveal_strlit("}]}");
    assert(mutations_body_text(seq![m])
        =~= "{\"mutations\":[{\"createOrReplace\":"@ + json_text(doc) + "}]}"@);
}

/// Appends the JSON text of one mutation.
fn append_mutation(out: &mut String, m: &Mutation)
    ensures
        final(out)@ == old(out)@ + mutation_text(*m),
{
    match m {
        Mutation::Create(doc) => {
            out.append("{\"create\":");
            append_json(out, doc);
            out.append("}");
            proof {
                assert(out@ =~= old(out)@ + mutation_text(*m));
            }
        },
        Mutation::CreateOrReplace(doc) => {
            out.append("{\"createOrReplace\":");
            append_json(out, doc);
            out.append("}");
            proof {
                assert(out@ =~= old(out)@ + mutation_text(*m));
            }
        },
        Mutation::CreateIfNotExists(doc) => {
            out.append("{\"createIfNotExists\":");
            append_json(out, doc);
            out.append("}");
            proof {
                assert(out@ =~= old(out)@ + mutation_text(*m));
            }
        },
        Mutation::Delete(doc) => {
            out.append("{\"delete\":");
            append_json(out, doc);
            out.append("}");
            proof {
                assert(out@ =~= old(out)@ + mutation_text(*m));
            }
        },
        Mutation::Patch(doc) => {
            out.append("{\"patch\":");
            append_json(out, doc);
            out.append("}");
            proof {
                assert(out@ =~= old(out)@ + mutation_text(*m));
            }
        },
    }
}

/// The serialized batch: every mutation's text, in order, inside the
/// envelope.
pub fn mutate_body(mutations: &Mutations) -> (r: String)
    ensures
        r@ == mutations_body_text(mutations@),
{
    let mut out = String::new();
    out.append("{\"mutations\":[");
    proof {
        assert(mutations@.subrange(0, 0) =~= Seq::<Mutation>::empty());
        assert(out@ =~= "{\"mutations\":["@ + mutations_items_text(mutations@.subrange(0, 0)));
    }
    let n = mutations.len();
    let mut i: usize = 0;
    while i < n
        invariant
            i <= n,
            n == mutations@.len(),
            out@ == "{\"mutations\":["@ + mutations_items_text(mutations@.subrange(0, i as int)),
        decreases n - i,
    {
        if i > 0 {
            out.append(",");
        }
        append_mutation(&mut out, &mutations[i]);
        proof {
            let done = mutations@.subrange(0, (i + 1) as int);
            assert(done.drop_last() =~= mutations@.subrange(0, i as int));
            assert(done.last() == mutations@[i as int]);
            assert(out@ =~= "{\"mutations\":["@ + mutations_items_text(done));
        }
        i += 1;
    }
    out.append("]}");
    proof {
        assert(mutations@.subrange(0, n as int) =~= mutations@);
        assert(out@ =~= mutations_body_text(mutations@));
    }
    out
}

/// A read-only content query: the query string itself plus named
/// variables, each sent as its own request parameter.
pub struct Query {
    /// The query-language string.
    pub query: String,
    /// Variable name (without the `$` prefix) and value pairs.
    pub variables: Vec<(String, JsonValue)>,
}

impl Query {
    /// The query string, as its character sequence.
    pub open spec fn spec_query(&self) -> Seq<char> {
        self.query@
    }

    /// Packs a query string and its variables.
    pub fn new(query: String, variables: Vec<(String, JsonValue)>) -> (q: Query)
        ensures
            q.spec_query() == query@,
            q.variables == variables,
    {
        Query { query, variables }
    }
}

/// The content group a request addresses.
#[derive(Debug)]
pub enum Content {
    /// Documents.
    Data,
    /// Binary assets, images among them.
    Assets,
}

/// The operation kind a request performs.
#[derive(Debug)]
pub enum Operation {
    /// Read content.
    Query,
    /// Change content.
    Mutate,
    /// Upload an image asset.
    Images,
}

/// The path segment of a content group.
pub open spec fn content_text(content: Content) -> Seq<char> {
    match content {
        Content::Data => "data"@,
        Content::Assets => "assets"@,
    }
}

/// The path segment of an operation kind.
pub open spec fn operation_text(operation: Operation) -> Seq<char> {
    match operation {
        Operation::Query => "query"@,
        Operation::Mutate => "mutate"@,
        Operation::Images => "images"@,
    }
}

/// The version used when none is configured.
pub open spec fn default_api_version() -> Seq<char> {
    "2021-06-07"@
}

/// The version a configuration selects: the configured one, or the
/// default when none is set.
pub open spec fn version_text(c: ConfigView) -> Seq<char> {
    match c.api_version {
        Some(v) => v,
        None => default_api_version(),
    }
}

/// The five-part request URL:
/// `https://{project_id}.api.sanity.io/v{version}/{content}/{operation}/{dataset}`.
pub open spec fn url_text(c: ConfigView, content: Content, operation: Operation) -> Seq<char> {
    "https://"@ + c.project_id + ".api.sanity.io/v"@ + version_text(c) + "/"@
        + content_text(content) + "/"@ + operation_text(operation) + "/"@ + c.dataset
}

/// The one header name the client ever sets.
pub open spec fn authorization_name() -> Seq<char> {
    "Authorization"@
}

/// The value of the authorization header for a token.
pub open spec fn bearer_value(token: Seq<char>) -> Seq<char> {
    "Bearer "@ + token
}

/// The header pairs a configuration yields: the authorization header
/// exactly when a token is set, nothing otherwise.
pub open spec fn headers_text(c: ConfigView) -> Seq<(Seq<char>, Seq<char>)> {
    match c.access_token {
        Some(t) => seq![(authorization_name(), bearer_value(t))],
        None => Seq::empty(),
    }
}

/// The text a variable or parameter value carries: a string stands
/// bare, every other value as its JSON text.
pub open spec fn param_text(v: JsonValue) -> Seq<char> {
    match v {
        JsonValue::Str(s) => s@,
        _ => json_text(v),
    }
}

/// The parameter pairs of a mutate call, values as their carried text.
pub open spec fn mutate_params_text(query: Seq<(String, JsonValue)>) -> Seq<(Seq<char>, Seq<char>)> {
    Seq::new(query.len(), |i: int| (query[i].0@, param_text(query[i].1)))
}

/// The parameter pairs of a fetch call: each variable's name behind a
/// `$` prefix, its value as its carried text.
pub open spec fn fetch_params_text(variables: Seq<(String, JsonValue)>) -> Seq<(Seq<char>, Seq<char>)> {
    Seq::new(variables.len(), |i: int| ("$"@ + variables[i].0@, param_text(variables[i].1)))
}

/// The HTTP method of a request.
#[derive(Debug, PartialEq, Eq, Structural)]
pub enum HttpMethod {
    /// A read.
    Get,
    /// A write.
    Post,
}

/// Everything the transport needs for one exchange: the client computes
/// this; performing it is the caller's transport's work.
#[derive(Debug)]
pub struct HttpRequest {
    /// The method of the exchange.
    pub method: HttpMethod,
    /// The full request URL.
    pub url: String,
    /// Named query parameters the transport appends to the URL.
    pub params: Vec<(String, String)>,
    /// Header name and value pairs.
    pub headers: Vec<(String, String)>,
    /// The request body, when the operation sends one.
    pub body: Option<String>,
}

/// The client: holds one configuration and computes a request for each
/// operation; it keeps no other state.
#[derive(Debug)]
pub struct SanityClient {
    project_id: String,
    dataset: String,
    access_token: Option<String>,
    api_version: Option<String>,
}

impl View for SanityClient {
    type V = ConfigView;

    closed spec fn view(&self) -> ConfigView {
        ConfigView {
            project_id: self.project_id@,
            dataset: self.dataset@,
            access_token: self.access_token.deep_view(),
            api_version: self.api_version.deep_view(),
        }
    }
}

impl SanityClient {
    /// A client carrying exactly the given configuration.
    pub fn new(config: SanityConfig) -> (c: SanityClient)
        ensures
            c@ == config@,
    {
        SanityClient {
            project_id: config.project_id,
            dataset: config.dataset,
            access_token: config.access_token,
            api_version: config.api_version,
        }
    }

    /// The request URL for a content group and an operation kind.
    pub fn url(&self, content: Content, operation: Operation) -> (r: String)
        ensures
            r@ == url_text(self@, content, operation),
    {
        let mut out = String::new();
        out.append("https://");
        out.append(self.project_id.as_str());
        out.append(".api.sanity.io/v");
        match &self.api_version {
            Some(v) => out.append(v.as_str()),
            None => out.append("2021-06-07"),
        }
        out.append("/");
        match content {
            Content::Data => out.append("data"),
            Content::Assets => out.append("assets"),
        }
        out.append("/");
        match operation {
            Operation::Query => out.append("query"),
            Operation::Mutate => out.append("mutate"),
            Operation::Images => out.append("images"),
        }
        out.append("/");
        out.append(self.dataset.as_str());
        proof {
            assert(out@ =~= url_text(self@, content, operation));
        }
        out
    }

    /// The headers of a request: the authorization header exactly when
    /// a token is configured, an empty collection otherwise.
    pub fn build_headers(&self) -> (h: Vec<(String, String)>)
        ensures
            h.deep_view() == headers_text(self@),
    {
        let mut headers: Vec<(String, String)> = Vec::new();
        match &self.access_token {
            Some(token) => {
                let mut value = String::new();
                value.append("Bearer ");
                value.append(token.as_str());
                headers.push((String::from_str("Authorization"), value));
                proof {
                    assert(headers.deep_view() =~= headers_text(self@));
                }
            },
            None => {
                proof {
                    assert(headers.deep_view() =~= headers_text(self@));
                }
            },
        }
        headers
    }

    /// The request of a mutate call: a POST to the mutate URL, the
    /// given parameters, the headers, and the serialized batch as body.
    pub fn mutate_request(&self, mutations: &Mutations, query: &Vec<(String, JsonValue)>) -> (r: HttpRequest)
        ensures
            r.method == HttpMethod::Post,
            r.url@ == url_text(self@, Content::Data, Operation::Mutate),
            r.params.deep_view() == mutate_params_text(query@),
            r.headers.deep_view() == headers_text(self@),
            r.body.deep_view() == Some(mutations_body_text(mutations@)),
    {
        let url = self.url(Content::Data, Operation::Mutate);
        let params = text_params(query, false);
        let headers = self.build_headers();
        let body = mutate_body(mutations);
        HttpRequest { method: HttpMethod::Post, url, params, headers, body: Some(body) }
    }

    /// The request of a fetch call: a GET whose URL carries the
    /// percent-encoded query string, one parameter per variable, and
    /// the headers; a fetch sends no body.
    pub fn fetch_request(&self, query: Query) -> (r: HttpRequest)
        ensures
            r.method == HttpMethod::Get,
            r.url@ == url_text(self@, Content::Data, Operation::Query) + "?query="@
                + url_encoded(query.spec_query()),
            r.params.deep_view() == fetch_params_text(query.variables@),
            r.headers.deep_view() == headers_text(self@),
            r.body is None,
    {
        let mut url = self.url(Content::Data, Operation::Query);
        url.append("?query=");
        let encoded = url_encode(query.query.as_str());
        url.append(encoded.as_str());
        let params = text_params(&query.variables, true);
        let headers = self.build_headers();
        HttpRequest { method: HttpMethod::Get, url, params, headers, body: None }
    }

    /// The request of an image upload: a POST to the image-upload URL
    /// with the headers and no parameters; the caller's transport
    /// attaches the file's bytes as the body before sending.
    pub fn upload_image_request(&self) -> (r: HttpRequest)
        ensures
            r.method == HttpMethod::Post,
            r.url@ == url_text(self@, Content::Assets, Operation::Images),
            r.params.deep_view() == Seq::<(Seq<char>, Seq<char>)>::empty(),
            r.headers.deep_view() == headers_text(self@),
            r.body is None,
    {
        let url = self.url(Content::Assets, Operation::Images);
        let params: Vec<(String, String)> = Vec::new();
        let headers = self.build_headers();
        proof {
            assert(params.deep_view() =~= Seq::<(Seq<char>, Seq<char>)>::empty());
        }
        HttpRequest { method: HttpMethod::Post, url, params, headers, body: None }
    }
}

/// The value text a parameter carries.
fn param_value(v: &JsonValue) -> (r: String)
    ensures
        r@ == param_text(*v),
{
    match v {
        JsonValue::Str(s) => s.clone(),
        _ => to_json(v),
    }
}

/// Converts name and value pairs into the texts a request carries,
/// putting a `$` before each name when asked for.
fn text_params(pairs: &Vec<(String, JsonValue)>, dollar: bool) -> (r: Vec<(String, String)>)
    ensures
        dollar ==> r.deep_view() == fetch_params_text(pairs@),
        !dollar ==> r.deep_view() == mutate_params_text(pairs@),
{
    let mut out: Vec<(String, String)> = Vec::new();
    let n = pairs.len();
    let mut i: usize = 0;
    while i < n
        invariant
            i <= n,
            n == pairs@.len(),
            out@.len() == i,
            forall |j: int| 0 <= j < i
                ==> (#[trigger] out@[j]).0@ == (if dollar { "$"@ + pairs@[j].0@ } else { pairs@[j].0@ }),
            forall |j: int| 0 <= j < i ==> (#[trigger] out@[j]).1@ == param_text(pairs@[j].1),
        decreases n - i,
    {
        let pair = &pairs[i];
        let mut name = String::new();
        if dollar {
            name.append("$");
        }
        name.append(pair.0.as_str());
        let value = param_value(&pair.1);
        out.push((name, value));
        proof {
            assert(name@ =~= if dollar { "$"@ + pair.0@ } else { pair.0@ });
        }
        i += 1;
    }
    proof {
        if dollar {
            assert(out.deep_view() =~~= fetch_params_text(pairs@));
        } else {
            assert(out.deep_view() =~~= mutate_params_text(pairs@));
        }
    }
    out
}

/// The data/query URL: the five-part form, carrying the configured
/// version where one is set and the default version otherwise.
pub proof fn lemma_data_query_url(c: ConfigView)
    ensures
        c.api_version matches Some(v) ==> url_text(c, Content::Data, Operation::Query)
            == "https://"@ + c.project_id + ".api.sanity.io/v"@ + v + "/data/query/"@ + c.dataset,
        c.api_version is None ==> url_text(c, Content::Data, Operation::Query)
            == "https://"@ + c.project_id + ".api.sanity.io/v"@ + "2021-06-07"@ + "/data/query/"@
                + c.dataset,
{
    reveal_strlit("/");
    reveal_strlit("data");
    reveal_strlit("query");
    reveal_strlit("/data/query/");
    match c.api_version {
        Some(v) => {
            assert(url_text(c, Content::Data, Operation::Query)
                =~= "https://"@ + c.project_id + ".api.sanity.io/v"@ + v + "/data/query/"@
                    + c.dataset);
        },
        None => {
            assert(url_text(c, Content::Data, Operation::Query)
                =~= "https://"@ + c.project_id + ".api.sanity.io/v"@ + "2021-06-07"@
                    + "/data/query/"@ + c.dataset);
        },
    }
}

} // verus!

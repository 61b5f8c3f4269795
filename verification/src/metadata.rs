//! The tag metadata endpoint: the catalogue of tags the service knows.

use crate::get::{carries_credential, get_request, interpreted, query, Exchange, ErrorKind,
    Method, Request};
use crate::json::{opt_field, opt_ok, opt_is, req_field, req_ok, req_is, str_eq,
    value_as_str, value_is_object, FromJson, JsonModel};
use vstd::prelude::*;

verus! {

/// The typed shape of the tag metadata response.
#[derive(Debug)]
pub struct TagMetadata {
    pub metadata: Vec<Metadatum>,
    pub vpn_services: Vec<String>,
}

/// One tag of the catalogue.
#[derive(Debug)]
pub struct Metadatum {
    pub id: String,
    pub label: String,
    pub slug: String,
    pub name: String,
    pub category: Category,
    pub intention: Intention,
    pub description: String,
    pub references: Vec<String>,
    pub recommend_block: bool,
    pub cves: Vec<String>,
    pub created_at: String,
    pub related_tags: Option<Vec<RelatedTag>>,
}

/// A tag related to another tag.
#[derive(Debug)]
pub struct RelatedTag {
    pub id: String,
    pub name: String,
    pub intention: Intention,
    pub category: Category,
    pub slug: String,
}

/// The category of a tag, decoded from its wire name.
#[derive(Debug, PartialEq, Eq, Structural, Clone, Copy)]
pub enum Category {
    Activity,
    Actor,
    SearchEngine,
    Tool,
    Worm,
}

/// The intention of a tag, decoded from its wire name.
#[derive(Debug, PartialEq, Eq, Structural, Clone, Copy)]
pub enum Intention {
    Benign,
    Malicious,
    Unknown,
}

impl FromJson for Category {
    open spec fn decodable(m: JsonModel) -> bool {
        m matches JsonModel::Str(s) && (s == "activity"@ || s == "actor"@ || s == "search_engine"@
            || s == "tool"@ || s == "worm"@)
    }

    open spec fn decodes(m: JsonModel, t: Category) -> bool {
        m matches JsonModel::Str(s) && match t {
            Category::Activity => s == "activity"@,
            Category::Actor => s == "actor"@,
            Category::SearchEngine => s == "search_engine"@,
            Category::Tool => s == "tool"@,
            Category::Worm => s == "worm"@,
        }
    }

    fn from_value(v: &serde_json::Value) -> (r: Option<Category>) {
        let s = match value_as_str(v) {
            Some(s) => s,
            None => {
                return None;
            },
        };
        if str_eq(s, "activity") {
            Some(Category::Activity)
        } else if str_eq(s, "actor") {
            Some(Category::Actor)
        } else if str_eq(s, "search_engine") {
            Some(Category::SearchEngine)
        } else if str_eq(s, "tool") {
            Some(Category::Tool)
        } else if str_eq(s, "worm") {
            Some(Category::Worm)
        } else {
            None
        }
    }
}

impl FromJson for Intention {
    open spec fn decodable(m: JsonModel) -> bool {
        m matches JsonModel::Str(s) && (s == "benign"@ || s == "malicious"@ || s == "unknown"@)
    }

    open spec fn decodes(m: JsonModel, t: Intention) -> bool {
        m matches JsonModel::Str(s) && match t {
            Intention::Benign => s == "benign"@,
            Intention::Malicious => s == "malicious"@,
            Intention::Unknown => s == "unknown"@,
        }
    }

    fn from_value(v: &serde_json::Value) -> (r: Option<Intention>) {
        let s = match value_as_str(v) {
            Some(s) => s,
            None => {
                return None;
            },
        };
        if str_eq(s, "benign") {
            Some(Intention::Benign)
        } else if str_eq(s, "malicious") {
            Some(Intention::Malicious)
        } else if str_eq(s, "unknown") {
            Some(Intention::Unknown)
        } else {
            None
        }
    }
}

impl FromJson for RelatedTag {
    open spec fn decodable(m: JsonModel) -> bool {
        &&& m is Obj
        &&& req_ok::<String>(m, "id"@)
        &&& req_ok::<String>(m, "name"@)
        &&& req_ok::<Intention>(m, "intention"@)
        &&& req_ok::<Category>(m, "category"@)
        &&& req_ok::<String>(m, "slug"@)
    }

    open spec fn decodes(m: JsonModel, t: RelatedTag) -> bool {
        &&& Self::decodable(m)
        &&& req_is::<String>(m, "id"@, t.id)
        &&& req_is::<String>(m, "name"@, t.name)
        &&& req_is::<Intention>(m, "intention"@, t.intention)
        &&& req_is::<Category>(m, "category"@, t.category)
        &&& req_is::<String>(m, "slug"@, t.slug)
    }

    fn from_value(v: &serde_json::Value) -> (r: Option<RelatedTag>) {
        if !value_is_object(v) {
            return None;
        }
        let id = match req_field::<String>(v, "id") {
            Some(x) => x,
            None => {
                return None;
            },
        };
        let name = match req_field::<String>(v, "name") {
            Some(x) => x,
            None => {
                return None;
            },
        };
        let intention = match req_field::<Intention>(v, "intention") {
            Some(x) => x,
            None => {
                return None;
            },
        };
        let category = match req_field::<Category>(v, "category") {
            Some(x) => x,
            None => {
                return None;
            },
        };
        let slug = match req_field::<String>(v, "slug") {
            Some(x) => x,
            None => {
                return None;
            },
        };
        Some(RelatedTag { id, name, intention, category, slug })
    }
}

impl FromJson for Metadatum {
    open spec fn decodable(m: JsonModel) -> bool {
        &&& m is Obj
        &&& req_ok::<String>(m, "id"@)
        &&& req_ok::<String>(m, "label"@)
        &&& req_ok::<String>(m, "slug"@)
        &&& req_ok::<String>(m, "name"@)
        &&& req_ok::<Category>(m, "category"@)
        &&& req_ok::<Intention>(m, "intention"@)
        &&& req_ok::<String>(m, "description"@)
        &&& req_ok::<Vec<String>>(m, "references"@)
        &&& req_ok::<bool>(m, "recommend_block"@)
        &&& req_ok::<Vec<String>>(m, "cves"@)
        &&& req_ok::<String>(m, "created_at"@)
        &&& opt_ok::<Vec<RelatedTag>>(m, "related_tags"@)
    }

    open spec fn decodes(m: JsonModel, t: Metadatum) -> bool {
        &&& Self::decodable(m)
        &&& req_is::<String>(m, "id"@, t.id)
        &&& req_is::<String>(m, "label"@, t.label)
        &&& req_is::<String>(m, "slug"@, t.slug)
        &&& req_is::<String>(m, "name"@, t.name)
        &&& req_is::<Category>(m, "category"@, t.category)
        &&& req_is::<Intention>(m, "intention"@, t.intention)
        &&& req_is::<String>(m, "description"@, t.description)
        &&& req_is::<Vec<String>>(m, "references"@, t.references)
        &&& req_is::<bool>(m, "recommend_block"@, t.recommend_block)
        &&& req_is::<Vec<String>>(m, "cves"@, t.cves)
        &&& req_is::<String>(m, "created_at"@, t.created_at)
        &&& opt_is::<Vec<RelatedTag>>(m, "related_tags"@, t.related_tags)
    }

    fn from_value(v: &serde_json::Value) -> (r: Option<Metadatum>) {
        if !value_is_object(v) {
            return None;
        }
        let id = match req_field::<String>(v, "id") {
            Some(x) => x,
            None => {
                return None;
            },
        };
        let label = match req_field::<String>(v, "label") {
            Some(x) => x,
            None => {
                return None;
            },
        };
        let slug = match req_field::<String>(v, "slug") {
            Some(x) => x,
            None => {
                return None;
            },
        };
        let name = match req_field::<String>(v, "name") {
            Some(x) => x,
            None => {
                return None;
            },
        };
        let category = match req_field::<Category>(v, "category") {
            Some(x) => x,
            None => {
                return None;
            },
        };
        let intention = match req_field::<Intention>(v, "intention") {
            Some(x) => x,
            None => {
                return None;
            },
        };
        let description = match req_field::<String>(v, "description") {
            Some(x) => x,
            None => {
                return None;
            },
        };
        let references = match req_field::<Vec<String>>(v, "references") {
            Some(x) => x,
            None => {
                return None;
            },
        };
        let recommend_block = match req_field::<bool>(v, "recommend_block") {
            Some(x) => x,
            None => {
                return None;
            },
        };
        let cves = match req_field::<Vec<String>>(v, "cves") {
            Some(x) => x,
            None => {
                return None;
            },
        };
        let created_at = match req_field::<String>(v, "created_at") {
            Some(x) => x,
            None => {
                return None;
            },
        };
        let related_tags = match opt_field::<Vec<RelatedTag>>(v, "related_tags") {
            Some(x) => x,
            None => {
                return None;
            },
        };
        Some(
            Metadatum {
                id,
                label,
                slug,
                name,
                category,
                intention,
                description,
                references,
                recommend_block,
                cves,
                created_at,
                related_tags,
            },
        )
    }
}

impl FromJson for TagMetadata {
    open spec fn decodable(m: JsonModel) -> bool {
        &&& m is Obj
        &&& req_ok::<Vec<Metadatum>>(m, "metadata"@)
        &&& req_ok::<Vec<String>>(m, "vpn_services"@)
    }

    open spec fn decodes(m: JsonModel, t: TagMetadata) -> bool {
        &&& Self::decodable(m)
        &&& req_is::<Vec<Metadatum>>(m, "metadata"@, t.metadata)
        &&& req_is::<Vec<String>>(m, "vpn_services"@, t.vpn_services)
    }

    fn from_value(v: &serde_json::Value) -> (r: Option<TagMetadata>) {
        if !value_is_object(v) {
            return None;
        }
        let metadata = match req_field::<Vec<Metadatum>>(v, "metadata") {
            Some(x) => x,
            None => {
                return None;
            },
        };
        let vpn_services = match req_field::<Vec<String>>(v, "vpn_services") {
            Some(x) => x,
            None => {
                return None;
            },
        };
        Some(TagMetadata { metadata, vpn_services })
    }
}

pub const METADATA_URL: &'static str = "https://api.greynoise.io/v2/meta/metadata";

/// The tag metadata URL; it takes no parameters.
pub fn metadata_url() -> (r: String)
    ensures
        r@ == METADATA_URL@,
{
    METADATA_URL.to_owned()
}

/// Build the tag metadata request: a GET of the fixed catalogue URL, with
/// the credential attached when given and no body.
pub fn metadata_request(key: Option<&str>) -> (r: Request)
    ensures
        r.method == Method::Get,
        r.url@ == METADATA_URL@,
        r.body is None,
        carries_credential(r, key),
{
    get_request(metadata_url(), key)
}

/// Interpret one exchange with the tag metadata endpoint.
pub fn metadata(e: &Exchange) -> (r: Result<TagMetadata, ErrorKind>)
    ensures
        interpreted::<TagMetadata>(*e, r),
{
    query::<TagMetadata>(e)
}

} // verus!

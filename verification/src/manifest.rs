//! The manifest: the validated, immutable description of the service.

use crate::limits::{
    MAX_DESCRIPTION_FOR_HUMAN, MAX_DESCRIPTION_FOR_MODEL, MAX_NAME_FOR_HUMAN, MAX_NAME_FOR_MODEL,
};
use vstd::prelude::*;
use vstd::string::*;

verus! {

/// How callers authenticate against the service.
#[derive(Debug, Clone, Copy, PartialEq, Eq, Structural)]
pub enum ManifestAuth {
    NoAuth,
    UserHttp,
    ServiceHttp,
    Oauth,
}

/// Where the description of the service's API lives.
#[derive(Debug, PartialEq, Eq)]
pub enum ManifestApi {
    Openapi { url: String, is_user_authenticated: bool },
}

/// Mathematical content of a [`ManifestApi`].
pub enum ManifestApiView {
    Openapi { url: Seq<char>, is_user_authenticated: bool },
}

impl View for ManifestApi {
    type V = ManifestApiView;

    open spec fn view(&self) -> ManifestApiView {
        match *self {
            ManifestApi::Openapi { url, is_user_authenticated } => ManifestApiView::Openapi {
                url: url@,
                is_user_authenticated,
            },
        }
    }
}

impl Clone for ManifestApi {
    fn clone(&self) -> (r: Self)
        ensures
            r@ == self@,
    {
        match self {
            ManifestApi::Openapi { url, is_user_authenticated } => ManifestApi::Openapi {
                url: url.clone(),
                is_user_authenticated: *is_user_authenticated,
            },
        }
    }
}

impl ManifestApiView {
    /// The URL under which the API description is published.
    pub open spec fn url(self) -> Seq<char> {
        match self {
            ManifestApiView::Openapi { url, .. } => url,
        }
    }
}

impl ManifestApi {
    /// The URL under which the API description is published.
    pub fn url(&self) -> (r: &str)
        ensures
            r@ == self@.url(),
    {
        match self {
            ManifestApi::Openapi { url, .. } => url.as_str(),
        }
    }
}

/// Mathematical content of a [`Manifest`].
pub struct ManifestView {
    pub schema_version: Seq<char>,
    pub name_for_human: Seq<char>,
    pub name_for_model: Seq<char>,
    pub description_for_human: Seq<char>,
    pub description_for_model: Seq<char>,
    pub auth: ManifestAuth,
    pub api: ManifestApiView,
    pub logo_url: Seq<char>,
    pub contact_email: Seq<char>,
    pub legal_info_url: Seq<char>,
}

impl ManifestView {
    /// The constraints every manifest meets: a version tag that is not
    /// empty, and names and descriptions within their limits.
    pub open spec fn valid(self) -> bool {
        &&& self.schema_version.len() >= 1
        &&& self.name_for_human.len() <= MAX_NAME_FOR_HUMAN
        &&& self.name_for_model.len() <= MAX_NAME_FOR_MODEL
        &&& self.description_for_human.len() <= MAX_DESCRIPTION_FOR_HUMAN
        &&& self.description_for_model.len() <= MAX_DESCRIPTION_FOR_MODEL
    }
}

/// The description of the service. A value of this type only comes out of
/// [`ManifestBuilder::build`](crate::builder::ManifestBuilder::build), and
/// always meets [`ManifestView::valid`].
#[derive(Debug, PartialEq, Eq)]
pub struct Manifest {
    schema_version: String,
    name_for_human: String,
    name_for_model: String,
    description_for_human: String,
    description_for_model: String,
    auth: ManifestAuth,
    api: ManifestApi,
    logo_url: String,
    contact_email: String,
    legal_info_url: String,
}

impl View for Manifest {
    type V = ManifestView;

    closed spec fn view(&self) -> ManifestView {
        ManifestView {
            schema_version: self.schema_version@,
            name_for_human: self.name_for_human@,
            name_for_model: self.name_for_model@,
            description_for_human: self.description_for_human@,
            description_for_model: self.description_for_model@,
            auth: self.auth,
            api: self.api@,
            logo_url: self.logo_url@,
            contact_email: self.contact_email@,
            legal_info_url: self.legal_info_url@,
        }
    }
}

impl Manifest {
    #[verifier::type_invariant]
    closed spec fn inv(self) -> bool {
        self@.valid()
    }
}

impl Manifest {
    /// Puts a manifest together from field values that meet the
    /// constraints.
    pub(crate) fn from_fields(
        schema_version: String,
        name_for_human: String,
        name_for_model: String,
        description_for_human: String,
        description_for_model: String,
        auth: ManifestAuth,
        api: ManifestApi,
        logo_url: String,
        contact_email: String,
        legal_info_url: String,
    ) -> (r: Manifest)
        requires
            schema_version@.len() >= 1,
            name_for_human@.len() <= MAX_NAME_FOR_HUMAN,
            name_for_model@.len() <= MAX_NAME_FOR_MODEL,
            description_for_human@.len() <= MAX_DESCRIPTION_FOR_HUMAN,
            description_for_model@.len() <= MAX_DESCRIPTION_FOR_MODEL,
        ensures
            r@ == (ManifestView {
                schema_version: schema_version@,
                name_for_human: name_for_human@,
                name_for_model: name_for_model@,
                description_for_human: description_for_human@,
                description_for_model: description_for_model@,
                auth,
                api: api@,
                logo_url: logo_url@,
                contact_email: contact_email@,
                legal_info_url: legal_info_url@,
            }),
    {
        Manifest {
            schema_version,
            name_for_human,
            name_for_model,
            description_for_human,
            description_for_model,
            auth,
            api,
            logo_url,
            contact_email,
            legal_info_url,
        }
    }

    /// The free-form version tag of the manifest format; never empty.
    pub fn schema_version(&self) -> (r: &str)
        ensures
            r@ == self@.schema_version,
            r@.len() >= 1,
    {
        proof {
            use_type_invariant(self);
        }
        self.schema_version.as_str()
    }

    /// The name shown to people; at most `MAX_NAME_FOR_HUMAN` characters.
    pub fn name_for_human(&self) -> (r: &str)
        ensures
            r@ == self@.name_for_human,
            r@.len() <= MAX_NAME_FOR_HUMAN,
    {
        proof {
            use_type_invariant(self);
        }
        self.name_for_human.as_str()
    }

    /// The name given to a model; at most `MAX_NAME_FOR_MODEL` characters.
    pub fn name_for_model(&self) -> (r: &str)
        ensures
            r@ == self@.name_for_model,
            r@.len() <= MAX_NAME_FOR_MODEL,
    {
        proof {
            use_type_invariant(self);
        }
        self.name_for_model.as_str()
    }

    /// The description shown to people; at most
    /// `MAX_DESCRIPTION_FOR_HUMAN` characters.
    pub fn description_for_human(&self) -> (r: &str)
        ensures
            r@ == self@.description_for_human,
            r@.len() <= MAX_DESCRIPTION_FOR_HUMAN,
    {
        proof {
            use_type_invariant(self);
        }
        self.description_for_human.as_str()
    }

    /// The description given to a model; at most
    /// `MAX_DESCRIPTION_FOR_MODEL` characters.
    pub fn description_for_model(&self) -> (r: &str)
        ensures
            r@ == self@.description_for_model,
            r@.len() <= MAX_DESCRIPTION_FOR_MODEL,
    {
        proof {
            use_type_invariant(self);
        }
        self.description_for_model.as_str()
    }

    /// How callers authenticate.
    pub fn auth(&self) -> (r: ManifestAuth)
        ensures
            r == self@.auth,
    {
        self.auth
    }

    /// Where the API description lives.
    pub fn api(&self) -> (r: &ManifestApi)
        ensures
            r@ == self@.api,
    {
        &self.api
    }

    /// The URL of the icon.
    pub fn logo_url(&self) -> (r: &str)
        ensures
            r@ == self@.logo_url,
    {
        self.logo_url.as_str()
    }

    /// Where to reach the maintainers.
    pub fn contact_email(&self) -> (r: &str)
        ensures
            r@ == self@.contact_email,
    {
        self.contact_email.as_str()
    }

    /// The URL of the legal information.
    pub fn legal_info_url(&self) -> (r: &str)
        ensures
            r@ == self@.legal_info_url,
    {
        self.legal_info_url.as_str()
    }
}

impl Clone for Manifest {
    fn clone(&self) -> (r: Self)
        ensures
            r@ == self@,
    {
        proof {
            use_type_invariant(self);
        }
        Manifest {
            schema_version: self.schema_version.clone(),
            name_for_human: self.name_for_human.clone(),
            name_for_model: self.name_for_model.clone(),
            description_for_human: self.description_for_human.clone(),
            description_for_model: self.description_for_model.clone(),
            auth: self.auth,
            api: self.api.clone(),
            logo_url: self.logo_url.clone(),
            contact_email: self.contact_email.clone(),
            legal_info_url: self.legal_info_url.clone(),
        }
    }
}

} // verus!

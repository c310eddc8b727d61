//! Building a manifest field by field, with each constrained field checked
//! the moment it is set.

use crate::limits::{
    length_message, length_verdict, test_len, LengthError, LengthErrorView,
    MAX_DESCRIPTION_FOR_HUMAN, MAX_DESCRIPTION_FOR_MODEL, MAX_NAME_FOR_HUMAN, MAX_NAME_FOR_MODEL,
};
use crate::manifest::{Manifest, ManifestApi, ManifestApiView, ManifestAuth, ManifestView};
use crate::text::text_view;
use vstd::prelude::*;
use vstd::string::*;

verus! {

/// The fields of a manifest, in the order in which they are declared.
#[derive(Debug, Clone, Copy, PartialEq, Eq, Structural)]
pub enum ManifestField {
    SchemaVersion,
    NameForHuman,
    NameForModel,
    DescriptionForHuman,
    DescriptionForModel,
    Auth,
    Api,
    LogoUrl,
    ContactEmail,
    LegalInfoUrl,
}

/// The name under which a field appears in the manifest.
pub open spec fn field_name(f: ManifestField) -> Seq<char> {
    match f {
        ManifestField::SchemaVersion => "schema_version"@,
        ManifestField::NameForHuman => "name_for_human"@,
        ManifestField::NameForModel => "name_for_model"@,
        ManifestField::DescriptionForHuman => "description_for_human"@,
        ManifestField::DescriptionForModel => "description_for_model"@,
        ManifestField::Auth => "auth"@,
        ManifestField::Api => "api"@,
        ManifestField::LogoUrl => "logo_url"@,
        ManifestField::ContactEmail => "contact_email"@,
        ManifestField::LegalInfoUrl => "legal_info_url"@,
    }
}

impl ManifestField {
    /// The name under which the field appears in the manifest.
    pub fn name(&self) -> (r: &'static str)
        ensures
            r@ == field_name(*self),
    {
        match self {
            ManifestField::SchemaVersion => "schema_version",
            ManifestField::NameForHuman => "name_for_human",
            ManifestField::NameForModel => "name_for_model",
            ManifestField::DescriptionForHuman => "description_for_human",
            ManifestField::DescriptionForModel => "description_for_model",
            ManifestField::Auth => "auth",
            ManifestField::Api => "api",
            ManifestField::LogoUrl => "logo_url",
            ManifestField::ContactEmail => "contact_email",
            ManifestField::LegalInfoUrl => "legal_info_url",
        }
    }
}

/// Why no manifest could be built.
#[derive(Debug, PartialEq, Eq)]
pub enum ManifestError {
    /// A value was longer than its field allows.
    TooLong(LengthError),
    /// A field that must not be empty was set to the empty string.
    Empty(ManifestField),
    /// A field was never set.
    Missing(ManifestField),
}

/// Mathematical content of a [`ManifestError`].
pub enum ManifestErrorView {
    TooLong(LengthErrorView),
    Empty(ManifestField),
    Missing(ManifestField),
}

impl View for ManifestError {
    type V = ManifestErrorView;

    open spec fn view(&self) -> ManifestErrorView {
        match *self {
            ManifestError::TooLong(e) => ManifestErrorView::TooLong(e@),
            ManifestError::Empty(f) => ManifestErrorView::Empty(f),
            ManifestError::Missing(f) => ManifestErrorView::Missing(f),
        }
    }
}

impl Clone for ManifestError {
    fn clone(&self) -> (r: Self)
        ensures
            r@ == self@,
    {
        match self {
            ManifestError::TooLong(e) => ManifestError::TooLong(e.clone()),
            ManifestError::Empty(f) => ManifestError::Empty(*f),
            ManifestError::Missing(f) => ManifestError::Missing(*f),
        }
    }
}

/// Text of the message for a failure.
pub open spec fn error_message(e: ManifestErrorView) -> Seq<char> {
    match e {
        ManifestErrorView::TooLong(l) => length_message(l),
        ManifestErrorView::Empty(f) => field_name(f) + " must not be empty"@,
        ManifestErrorView::Missing(f) => field_name(f) + " is required"@,
    }
}

impl ManifestError {
    /// The failure as a sentence that names the field concerned.
    pub fn describe(&self) -> (r: String)
        ensures
            r@ == error_message(self@),
    {
        match self {
            ManifestError::TooLong(e) => e.describe(),
            ManifestError::Empty(f) => String::from_str(f.name()).concat(" must not be empty"),
            ManifestError::Missing(f) => String::from_str(f.name()).concat(" is required"),
        }
    }
}

/// One step of building: a field together with the value it is set to.
pub enum Setting {
    SchemaVersion(Seq<char>),
    NameForHuman(Seq<char>),
    NameForModel(Seq<char>),
    DescriptionForHuman(Seq<char>),
    DescriptionForModel(Seq<char>),
    Auth(ManifestAuth),
    Api(ManifestApiView),
    LogoUrl(Seq<char>),
    ContactEmail(Seq<char>),
    LegalInfoUrl(Seq<char>),
}

/// The failure of a value that exceeds the limit of its field, if it does.
pub open spec fn excess(value: Seq<char>, field: ManifestField, limit: nat) -> Option<
    ManifestErrorView,
> {
    match length_verdict(value, field_name(field), limit) {
        Ok(_) => None,
        Err(e) => Some(ManifestErrorView::TooLong(e)),
    }
}

impl Setting {
    /// The field that the step sets.
    pub open spec fn field(self) -> ManifestField {
        match self {
            Setting::SchemaVersion(_) => ManifestField::SchemaVersion,
            Setting::NameForHuman(_) => ManifestField::NameForHuman,
            Setting::NameForModel(_) => ManifestField::NameForModel,
            Setting::DescriptionForHuman(_) => ManifestField::DescriptionForHuman,
            Setting::DescriptionForModel(_) => ManifestField::DescriptionForModel,
            Setting::Auth(_) => ManifestField::Auth,
            Setting::Api(_) => ManifestField::Api,
            Setting::LogoUrl(_) => ManifestField::LogoUrl,
            Setting::ContactEmail(_) => ManifestField::ContactEmail,
            Setting::LegalInfoUrl(_) => ManifestField::LegalInfoUrl,
        }
    }

    /// What is wrong with the value, if anything: an empty version tag, or
    /// a name or description beyond its limit.
    pub open spec fn defect(self) -> Option<ManifestErrorView> {
        match self {
            Setting::SchemaVersion(v) => if v.len() == 0 {
                Some(ManifestErrorView::Empty(ManifestField::SchemaVersion))
            } else {
                None
            },
            Setting::NameForHuman(v) => excess(
                v,
                ManifestField::NameForHuman,
                MAX_NAME_FOR_HUMAN as nat,
            ),
            Setting::NameForModel(v) => excess(
                v,
                ManifestField::NameForModel,
                MAX_NAME_FOR_MODEL as nat,
            ),
            Setting::DescriptionForHuman(v) => excess(
                v,
                ManifestField::DescriptionForHuman,
                MAX_DESCRIPTION_FOR_HUMAN as nat,
            ),
            Setting::DescriptionForModel(v) => excess(
                v,
                ManifestField::DescriptionForModel,
                MAX_DESCRIPTION_FOR_MODEL as nat,
            ),
            _ => None,
        }
    }
}

/// Mathematical content of a [`ManifestBuilder`]: the value each field was
/// last set to, if it was set, and the first failure met, if any.
pub struct BuilderView {
    pub schema_version: Option<Seq<char>>,
    pub name_for_human: Option<Seq<char>>,
    pub name_for_model: Option<Seq<char>>,
    pub description_for_human: Option<Seq<char>>,
    pub description_for_model: Option<Seq<char>>,
    pub auth: Option<ManifestAuth>,
    pub api: Option<ManifestApiView>,
    pub logo_url: Option<Seq<char>>,
    pub contact_email: Option<Seq<char>>,
    pub legal_info_url: Option<Seq<char>>,
    pub failure: Option<ManifestErrorView>,
}

impl BuilderView {
    /// The state in which nothing has been set and nothing has failed.
    pub open spec fn empty() -> BuilderView {
        BuilderView {
            schema_version: None,
            name_for_human: None,
            name_for_model: None,
            description_for_human: None,
            description_for_model: None,
            auth: None,
            api: None,
            logo_url: None,
            contact_email: None,
            legal_info_url: None,
            failure: None,
        }
    }

    /// The step that last set `field`, if the field holds a value.
    pub open spec fn slot(self, field: ManifestField) -> Option<Setting> {
        match field {
            ManifestField::SchemaVersion => match self.schema_version {
                Some(v) => Some(Setting::SchemaVersion(v)),
                None => None,
            },
            ManifestField::NameForHuman => match self.name_for_human {
                Some(v) => Some(Setting::NameForHuman(v)),
                None => None,
            },
            ManifestField::NameForModel => match self.name_for_model {
                Some(v) => Some(Setting::NameForModel(v)),
                None => None,
            },
            ManifestField::DescriptionForHuman => match self.description_for_human {
                Some(v) => Some(Setting::DescriptionForHuman(v)),
                None => None,
            },
            ManifestField::DescriptionForModel => match self.description_for_model {
                Some(v) => Some(Setting::DescriptionForModel(v)),
                None => None,
            },
            ManifestField::Auth => match self.auth {
                Some(v) => Some(Setting::Auth(v)),
                None => None,
            },
            ManifestField::Api => match self.api {
                Some(v) => Some(Setting::Api(v)),
                None => None,
            },
            ManifestField::LogoUrl => match self.logo_url {
                Some(v) => Some(Setting::LogoUrl(v)),
                None => None,
            },
            ManifestField::ContactEmail => match self.contact_email {
                Some(v) => Some(Setting::ContactEmail(v)),
                None => None,
            },
            ManifestField::LegalInfoUrl => match self.legal_info_url {
                Some(v) => Some(Setting::LegalInfoUrl(v)),
                None => None,
            },
        }
    }

    /// Every value held meets the constraint of its field.
    pub open spec fn well_formed(self) -> bool {
        &&& self.schema_version matches Some(v) ==> v.len() >= 1
        &&& self.name_for_human matches Some(v) ==> v.len() <= MAX_NAME_FOR_HUMAN
        &&& self.name_for_model matches Some(v) ==> v.len() <= MAX_NAME_FOR_MODEL
        &&& self.description_for_human matches Some(v) ==> v.len() <= MAX_DESCRIPTION_FOR_HUMAN
        &&& self.description_for_model matches Some(v) ==> v.len() <= MAX_DESCRIPTION_FOR_MODEL
    }

    /// The state with the value of `setting` put into its field.
    pub open spec fn store(self, setting: Setting) -> BuilderView {
        match setting {
            Setting::SchemaVersion(v) => BuilderView { schema_version: Some(v), ..self },
            Setting::NameForHuman(v) => BuilderView { name_for_human: Some(v), ..self },
            Setting::NameForModel(v) => BuilderView { name_for_model: Some(v), ..self },
            Setting::DescriptionForHuman(v) => BuilderView {
                description_for_human: Some(v),
                ..self
            },
            Setting::DescriptionForModel(v) => BuilderView {
                description_for_model: Some(v),
                ..self
            },
            Setting::Auth(v) => BuilderView { auth: Some(v), ..self },
            Setting::Api(v) => BuilderView { api: Some(v), ..self },
            Setting::LogoUrl(v) => BuilderView { logo_url: Some(v), ..self },
            Setting::ContactEmail(v) => BuilderView { contact_email: Some(v), ..self },
            Setting::LegalInfoUrl(v) => BuilderView { legal_info_url: Some(v), ..self },
        }
    }

    /// The state with `failure` recorded, unless one was recorded before:
    /// the first failure is the one that is kept.
    pub open spec fn fail(self, failure: ManifestErrorView) -> BuilderView {
        if self.failure is Some {
            self
        } else {
            BuilderView { failure: Some(failure), ..self }
        }
    }

    /// The state after one step: a sound value goes into its field, a
    /// defective one is refused and its failure recorded.
    pub open spec fn apply(self, setting: Setting) -> BuilderView {
        match setting.defect() {
            Some(failure) => self.fail(failure),
            None => self.store(setting),
        }
    }

    /// The state after a run of steps, taken from first to last.
    pub open spec fn apply_all(self, settings: Seq<Setting>) -> BuilderView
        decreases settings.len(),
    {
        if settings.len() == 0 {
            self
        } else {
            self.apply_all(settings.drop_last()).apply(settings.last())
        }
    }

    /// The first field, in declaration order, that holds no value.
    pub open spec fn first_missing(self) -> Option<ManifestField> {
        if self.schema_version is None {
            Some(ManifestField::SchemaVersion)
        } else if self.name_for_human is None {
            Some(ManifestField::NameForHuman)
        } else if self.name_for_model is None {
            Some(ManifestField::NameForModel)
        } else if self.description_for_human is None {
            Some(ManifestField::DescriptionForHuman)
        } else if self.description_for_model is None {
            Some(ManifestField::DescriptionForModel)
        } else if self.auth is None {
            Some(ManifestField::Auth)
        } else if self.api is None {
            Some(ManifestField::Api)
        } else if self.logo_url is None {
            Some(ManifestField::LogoUrl)
        } else if self.contact_email is None {
            Some(ManifestField::ContactEmail)
        } else if self.legal_info_url is None {
            Some(ManifestField::LegalInfoUrl)
        } else {
            None
        }
    }

    /// What building yields: the first failure recorded, else the first
    /// field left unset, else the manifest made of the values held.
    pub open spec fn outcome(self) -> Result<ManifestView, ManifestErrorView> {
        if self.failure is Some {
            Err(self.failure->0)
        } else if self.first_missing() is Some {
            Err(ManifestErrorView::Missing(self.first_missing()->0))
        } else {
            Ok(
                ManifestView {
                    schema_version: self.schema_version->0,
                    name_for_human: self.name_for_human->0,
                    name_for_model: self.name_for_model->0,
                    description_for_human: self.description_for_human->0,
                    description_for_model: self.description_for_model->0,
                    auth: self.auth->0,
                    api: self.api->0,
                    logo_url: self.logo_url->0,
                    contact_email: self.contact_email->0,
                    legal_info_url: self.legal_info_url->0,
                },
            )
        }
    }
}

/// View of an optional API descriptor.
pub open spec fn held_api(s: Option<ManifestApi>) -> Option<ManifestApiView> {
    match s {
        Some(a) => Some(a@),
        None => None,
    }
}

/// View of an optional failure.
pub open spec fn held_failure(s: Option<ManifestError>) -> Option<ManifestErrorView> {
    match s {
        Some(e) => Some(e@),
        None => None,
    }
}

/// Collects the fields of a manifest one at a time. Every setter takes the
/// builder and gives it back, so calls chain; a value that breaks the
/// constraint of its field is refused on the spot, and the first such
/// failure is what [`ManifestBuilder::build`] reports.
#[derive(Debug)]
pub struct ManifestBuilder {
    schema_version: Option<String>,
    name_for_human: Option<String>,
    name_for_model: Option<String>,
    description_for_human: Option<String>,
    description_for_model: Option<String>,
    auth: Option<ManifestAuth>,
    api: Option<ManifestApi>,
    logo_url: Option<String>,
    contact_email: Option<String>,
    legal_info_url: Option<String>,
    failure: Option<ManifestError>,
}

impl View for ManifestBuilder {
    type V = BuilderView;

    closed spec fn view(&self) -> BuilderView {
        BuilderView {
            schema_version: text_view(self.schema_version),
            name_for_human: text_view(self.name_for_human),
            name_for_model: text_view(self.name_for_model),
            description_for_human: text_view(self.description_for_human),
            description_for_model: text_view(self.description_for_model),
            auth: self.auth,
            api: held_api(self.api),
            logo_url: text_view(self.logo_url),
            contact_email: text_view(self.contact_email),
            legal_info_url: text_view(self.legal_info_url),
            failure: held_failure(self.failure),
        }
    }
}

impl Manifest {
    /// Starts building a manifest: nothing set, nothing failed.
    pub fn builder() -> (r: ManifestBuilder)
        ensures
            r@ == BuilderView::empty(),
    {
        ManifestBuilder {
            schema_version: None,
            name_for_human: None,
            name_for_model: None,
            description_for_human: None,
            description_for_model: None,
            auth: None,
            api: None,
            logo_url: None,
            contact_email: None,
            legal_info_url: None,
            failure: None,
        }
    }
}

impl ManifestBuilder {
    #[verifier::type_invariant]
    closed spec fn inv(self) -> bool {
        self@.well_formed()
    }

    /// Records `failure` unless an earlier one is already held.
    fn fail(self, failure: ManifestError) -> (r: Self)
        ensures
            r@ == self@.fail(failure@),
    {
        proof {
            use_type_invariant(&self);
        }
        if self.failure.is_some() {
            self
        } else {
            ManifestBuilder { failure: Some(failure), ..self }
        }
    }

    /// Checks `value` against `limit` for `field`: the value to store, or
    /// the failure to record.
    fn checked(value: &str, field: ManifestField, limit: usize) -> (r: Result<
        String,
        ManifestError,
    >)
        ensures
            match r {
                Ok(v) => v@ == value@ && excess(value@, field, limit as nat) is None,
                Err(e) => excess(value@, field, limit as nat) == Some(e@),
            },
    {
        match test_len(String::from_str(value), field.name(), limit) {
            Ok(v) => Ok(v),
            Err(e) => Err(ManifestError::TooLong(e)),
        }
    }

    /// Sets the version tag, which must not be empty.
    pub fn schema_version(self, value: &str) -> (r: Self)
        ensures
            r@ == self@.apply(Setting::SchemaVersion(value@)),
    {
        proof {
            use_type_invariant(&self);
        }
        if value.is_empty() {
            self.fail(ManifestError::Empty(ManifestField::SchemaVersion))
        } else {
            ManifestBuilder { schema_version: Some(String::from_str(value)), ..self }
        }
    }

    /// Sets the name shown to people, of at most `MAX_NAME_FOR_HUMAN`
    /// characters.
    pub fn name_for_human(self, value: &str) -> (r: Self)
        ensures
            r@ == self@.apply(Setting::NameForHuman(value@)),
    {
        proof {
            use_type_invariant(&self);
        }
        match Self::checked(value, ManifestField::NameForHuman, MAX_NAME_FOR_HUMAN) {
            Ok(v) => {
                ManifestBuilder { name_for_human: Some(v), ..self }
            },
            Err(e) => self.fail(e),
        }
    }

    /// Sets the name given to a model, of at most `MAX_NAME_FOR_MODEL`
    /// characters.
    pub fn name_for_model(self, value: &str) -> (r: Self)
        ensures
            r@ == self@.apply(Setting::NameForModel(value@)),
    {
        proof {
            use_type_invariant(&self);
        }
        match Self::checked(value, ManifestField::NameForModel, MAX_NAME_FOR_MODEL) {
            Ok(v) => {
                ManifestBuilder { name_for_model: Some(v), ..self }
            },
            Err(e) => self.fail(e),
        }
    }

    /// Sets the description shown to people, of at most
    /// `MAX_DESCRIPTION_FOR_HUMAN` characters.
    pub fn description_for_human(self, value: &str) -> (r: Self)
        ensures
            r@ == self@.apply(Setting::DescriptionForHuman(value@)),
    {
        proof {
            use_type_invariant(&self);
        }
        match Self::checked(value, ManifestField::DescriptionForHuman, MAX_DESCRIPTION_FOR_HUMAN) {
            Ok(v) => {
                ManifestBuilder { description_for_human: Some(v), ..self }
            },
            Err(e) => self.fail(e),
        }
    }

    /// Sets the description given to a model, of at most
    /// `MAX_DESCRIPTION_FOR_MODEL` characters.
    pub fn description_for_model(self, value: &str) -> (r: Self)
        ensures
            r@ == self@.apply(Setting::DescriptionForModel(value@)),
    {
        proof {
            use_type_invariant(&self);
        }
        match Self::checked(value, ManifestField::DescriptionForModel, MAX_DESCRIPTION_FOR_MODEL) {
            Ok(v) => {
                ManifestBuilder { description_for_model: Some(v), ..self }
            },
            Err(e) => self.fail(e),
        }
    }

    /// Sets how callers authenticate.
    pub fn auth(self, value: ManifestAuth) -> (r: Self)
        ensures
            r@ == self@.apply(Setting::Auth(value)),
    {
        proof {
            use_type_invariant(&self);
        }
        ManifestBuilder { auth: Some(value), ..self }
    }

    /// Sets where the API description lives.
    pub fn api(self, value: ManifestApi) -> (r: Self)
        ensures
            r@ == self@.apply(Setting::Api(value@)),
    {
        proof {
            use_type_invariant(&self);
        }
        ManifestBuilder { api: Some(value), ..self }
    }

    /// Sets the URL of the icon.
    pub fn logo_url(self, value: &str) -> (r: Self)
        ensures
            r@ == self@.apply(Setting::LogoUrl(value@)),
    {
        proof {
            use_type_invariant(&self);
        }
        ManifestBuilder { logo_url: Some(String::from_str(value)), ..self }
    }

    /// Sets where to reach the maintainers.
    pub fn contact_email(self, value: &str) -> (r: Self)
        ensures
            r@ == self@.apply(Setting::ContactEmail(value@)),
    {
        proof {
            use_type_invariant(&self);
        }
        ManifestBuilder { contact_email: Some(String::from_str(value)), ..self }
    }

    /// Sets the URL of the legal information.
    pub fn legal_info_url(self, value: &str) -> (r: Self)
        ensures
            r@ == self@.apply(Setting::LegalInfoUrl(value@)),
    {
        proof {
            use_type_invariant(&self);
        }
        ManifestBuilder { legal_info_url: Some(String::from_str(value)), ..self }
    }

    /// Finishes building. Gives the manifest made of the values set, which
    /// meets every constraint; or the first failure a setter met; or, where
    /// no setter failed, the first field in declaration order that was
    /// never set.
    pub fn build(self) -> (r: Result<Manifest, ManifestError>)
        ensures
            match r {
                Ok(m) => self@.outcome() == Ok::<ManifestView, ManifestErrorView>(m@)
                    && m@.valid(),
                Err(e) => self@.outcome() == Err::<ManifestView, ManifestErrorView>(e@),
            },
    {
        proof {
            use_type_invariant(&self);
        }
        let ManifestBuilder {
            schema_version,
            name_for_human,
            name_for_model,
            description_for_human,
            description_for_model,
            auth,
            api,
            logo_url,
            contact_email,
            legal_info_url,
            failure,
        } = self;
        if let Some(e) = failure {
            return Err(e);
        }
        let schema_version = match schema_version {
            Some(v) => v,
            None => { return Err(ManifestError::Missing(ManifestField::SchemaVersion)); },
        };
        let name_for_human = match name_for_human {
            Some(v) => v,
            None => { return Err(ManifestError::Missing(ManifestField::NameForHuman)); },
        };
        let name_for_model = match name_for_model {
            Some(v) => v,
            None => { return Err(ManifestError::Missing(ManifestField::NameForModel)); },
        };
        let description_for_human = match description_for_human {
            Some(v) => v,
            None => { return Err(ManifestError::Missing(ManifestField::DescriptionForHuman)); },
        };
        let description_for_model = match description_for_model {
            Some(v) => v,
            None => { return Err(ManifestError::Missing(ManifestField::DescriptionForModel)); },
        };
        let auth = match auth {
            Some(v) => v,
            None => { return Err(ManifestError::Missing(ManifestField::Auth)); },
        };
        let api = match api {
            Some(v) => v,
            None => { return Err(ManifestError::Missing(ManifestField::Api)); },
        };
        let logo_url = match logo_url {
            Some(v) => v,
            None => { return Err(ManifestError::Missing(ManifestField::LogoUrl)); },
        };
        let contact_email = match contact_email {
            Some(v) => v,
            None => { return Err(ManifestError::Missing(ManifestField::ContactEmail)); },
        };
        let legal_info_url = match legal_info_url {
            Some(v) => v,
            None => { return Err(ManifestError::Missing(ManifestField::LegalInfoUrl)); },
        };
        Ok(
            Manifest::from_fields(
                schema_version,
                name_for_human,
                name_for_model,
                description_for_human,
                description_for_model,
                auth,
                api,
                logo_url,
                contact_email,
                legal_info_url,
            ),
        )
    }
}

/// The last step in `settings` that sets `field`, if any does.
pub open spec fn last_for(settings: Seq<Setting>, field: ManifestField) -> Option<Setting>
    decreases settings.len(),
{
    if settings.len() == 0 {
        None
    } else if settings.last().field() == field {
        Some(settings.last())
    } else {
        last_for(settings.drop_last(), field)
    }
}

/// Some step in `settings` sets `field`.
pub open spec fn covers(settings: Seq<Setting>, field: ManifestField) -> bool {
    exists|i: int| 0 <= i < settings.len() && #[trigger] settings[i].field() == field
}

/// The value of `field` in a manifest, as the step that would set it.
pub open spec fn reading(m: ManifestView, field: ManifestField) -> Setting {
    match field {
        ManifestField::SchemaVersion => Setting::SchemaVersion(m.schema_version),
        ManifestField::NameForHuman => Setting::NameForHuman(m.name_for_human),
        ManifestField::NameForModel => Setting::NameForModel(m.name_for_model),
        ManifestField::DescriptionForHuman => Setting::DescriptionForHuman(
            m.description_for_human,
        ),
        ManifestField::DescriptionForModel => Setting::DescriptionForModel(
            m.description_for_model,
        ),
        ManifestField::Auth => Setting::Auth(m.auth),
        ManifestField::Api => Setting::Api(m.api),
        ManifestField::LogoUrl => Setting::LogoUrl(m.logo_url),
        ManifestField::ContactEmail => Setting::ContactEmail(m.contact_email),
        ManifestField::LegalInfoUrl => Setting::LegalInfoUrl(m.legal_info_url),
    }
}

/// A field is set by some step of a run exactly when the run has a last
/// step for it.
pub proof fn lemma_last_for_exists(settings: Seq<Setting>, field: ManifestField)
    ensures
        last_for(settings, field) is Some <==> covers(settings, field),
        last_for(settings, field) matches Some(s) ==> s.field() == field && exists|i: int|
            0 <= i < settings.len() && #[trigger] settings[i] == s,
    decreases settings.len(),
{
    if settings.len() > 0 {
        let init = settings.drop_last();
        lemma_last_for_exists(init, field);
        if settings.last().field() == field {
            assert(settings[settings.len() - 1].field() == field);
            assert(settings[settings.len() - 1] == settings.last());
        } else {
            if last_for(init, field) is Some {
                let i = choose|i: int| 0 <= i < init.len() && #[trigger] init[i].field() == field;
                assert(settings[i].field() == field);
                let s = last_for(init, field)->0;
                let j = choose|j: int| 0 <= j < init.len() && #[trigger] init[j] == s;
                assert(settings[j] == s);
            }
            if exists|i: int| 0 <= i < settings.len() && #[trigger] settings[i].field() == field {
                let i = choose|i: int|
                    0 <= i < settings.len() && #[trigger] settings[i].field() == field;
                assert(init[i].field() == field);
            }
        }
    }
}

/// Which values are defective: an empty version tag, and a name or
/// description with more characters than its limit. Nothing else is.
pub proof fn lemma_defects(text: Seq<char>, auth: ManifestAuth, api: ManifestApiView)
    ensures
        Setting::SchemaVersion(text).defect() is Some <==> text.len() == 0,
        Setting::NameForHuman(text).defect() is Some <==> text.len() > MAX_NAME_FOR_HUMAN,
        Setting::NameForModel(text).defect() is Some <==> text.len() > MAX_NAME_FOR_MODEL,
        Setting::DescriptionForHuman(text).defect() is Some <==> text.len()
            > MAX_DESCRIPTION_FOR_HUMAN,
        Setting::DescriptionForModel(text).defect() is Some <==> text.len()
            > MAX_DESCRIPTION_FOR_MODEL,
        Setting::Auth(auth).defect() is None,
        Setting::Api(api).defect() is None,
        Setting::LogoUrl(text).defect() is None,
        Setting::ContactEmail(text).defect() is None,
        Setting::LegalInfoUrl(text).defect() is None,
{
}

/// Once a failure is recorded, no later step removes or replaces it.
pub proof fn lemma_failure_sticks(b: BuilderView, settings: Seq<Setting>)
    requires
        b.failure is Some,
    ensures
        b.apply_all(settings).failure == b.failure,
    decreases settings.len(),
{
    if settings.len() > 0 {
        lemma_failure_sticks(b, settings.drop_last());
    }
}

/// A value that breaks the constraint of its field makes building fail,
/// whatever was set before and whatever is set afterwards: no manifest
/// comes out. Where nothing had failed before, the failure reported is the
/// one of that value.
pub proof fn lemma_defect_prevents_manifest(b: BuilderView, bad: Setting, rest: Seq<Setting>)
    requires
        bad.defect() is Some,
    ensures
        b.apply(bad).apply_all(rest).outcome() is Err,
        b.failure is None ==> b.apply(bad).apply_all(rest).outcome() == Err::<
            ManifestView,
            ManifestErrorView,
        >(bad.defect()->0),
{
    lemma_failure_sticks(b.apply(bad), rest);
}

/// A run of sound steps never records a failure, keeps what is held sound,
/// and leaves in each field the value of the last step that set it (or
/// what the field held before, where no step did).
pub proof fn lemma_sound_steps(b: BuilderView, settings: Seq<Setting>)
    requires
        forall|i: int| 0 <= i < settings.len() ==> (#[trigger] settings[i]).defect() is None,
    ensures
        b.apply_all(settings).failure == b.failure,
        b.well_formed() ==> b.apply_all(settings).well_formed(),
        forall|f: ManifestField| #[trigger]
            b.apply_all(settings).slot(f) == (if last_for(settings, f) is Some {
                last_for(settings, f)
            } else {
                b.slot(f)
            }),
    decreases settings.len(),
{
    if settings.len() > 0 {
        let init = settings.drop_last();
        let last = settings.last();
        assert(forall|i: int| 0 <= i < init.len() ==> init[i] == settings[i]);
        lemma_sound_steps(b, init);
        let mid = b.apply_all(init);
        assert(last == settings[settings.len() - 1]);
        assert(mid.apply(last) == mid.store(last));
        assert forall|f: ManifestField| #[trigger]
            mid.store(last).slot(f) == (if last.field() == f {
                Some(last)
            } else {
                mid.slot(f)
            }) by {}
    }
}

/// Setting every field to a value within its limits, in any order and any
/// number of times, makes building succeed: the manifest that comes out is
/// valid and holds in each field the value it was last set to.
pub proof fn lemma_sound_values_build(settings: Seq<Setting>)
    requires
        forall|i: int| 0 <= i < settings.len() ==> (#[trigger] settings[i]).defect() is None,
        forall|f: ManifestField| #[trigger] covers(settings, f),
    ensures
        BuilderView::empty().apply_all(settings).outcome() is Ok,
        BuilderView::empty().apply_all(settings).outcome()->Ok_0.valid(),
        forall|f: ManifestField|
            Some(#[trigger] reading(BuilderView::empty().apply_all(settings).outcome()->Ok_0, f))
                == last_for(settings, f),
{
    let b = BuilderView::empty().apply_all(settings);
    lemma_sound_steps(BuilderView::empty(), settings);
    assert forall|f: ManifestField| #[trigger] b.slot(f) == last_for(settings, f) && b.slot(f) is Some
        && b.slot(f)->0.field() == f by {
        lemma_last_for_exists(settings, f);
    }
    assert(b.slot(ManifestField::SchemaVersion) is Some);
    assert(b.slot(ManifestField::NameForHuman) is Some);
    assert(b.slot(ManifestField::NameForModel) is Some);
    assert(b.slot(ManifestField::DescriptionForHuman) is Some);
    assert(b.slot(ManifestField::DescriptionForModel) is Some);
    assert(b.slot(ManifestField::Auth) is Some);
    assert(b.slot(ManifestField::Api) is Some);
    assert(b.slot(ManifestField::LogoUrl) is Some);
    assert(b.slot(ManifestField::ContactEmail) is Some);
    assert(b.slot(ManifestField::LegalInfoUrl) is Some);
    assert(b.first_missing() is None);
    let m = b.outcome()->Ok_0;
    assert forall|f: ManifestField| Some(#[trigger] reading(m, f)) == last_for(settings, f) by {
        assert(b.slot(f) == last_for(settings, f));
    }
}

} // verus!

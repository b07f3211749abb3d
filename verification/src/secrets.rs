//! Application secrets: the schema under which the application keeps its
//! passwords in the desktop secret service, and the requests it sends to
//! store and look up a password.

use vstd::prelude::*;

verus! {

/// A secret the application keeps.
#[derive(Debug, Clone, Copy)]
pub enum AppSecretService {
    /// The SFTP password to access the SFTP server hosting the repository.
    Sftp,
    /// The key for the restic repository.
    Restic,
}

/// The value of the `service` attribute under which a secret is stored.
pub open spec fn spec_service_name(service: AppSecretService) -> Seq<char> {
    match service {
        AppSecretService::Sftp => "SFTP"@,
        AppSecretService::Restic => "restic"@,
    }
}

impl From<AppSecretService> for &'static str {
    fn from(value: AppSecretService) -> (r: &'static str) {
        match value {
            AppSecretService::Sftp => "SFTP",
            AppSecretService::Restic => "restic",
        }
    }
}

impl vstd::std_specs::convert::FromSpecImpl<AppSecretService> for &'static str {
    open spec fn obeys_from_spec() -> bool {
        true
    }

    open spec fn from_spec(v: AppSecretService) -> &'static str {
        match v {
            AppSecretService::Sftp => "SFTP",
            AppSecretService::Restic => "restic",
        }
    }
}

/// The type of a schema attribute, as the secret service knows them.
#[derive(Debug, Clone, Copy)]
pub enum SchemaAttributeType {
    String,
    Integer,
    Boolean,
}

/// The flags of a schema, as the secret service knows them.
#[derive(Debug, Clone, Copy)]
pub enum SchemaFlags {
    /// No flags.
    NoFlags,
    /// Items of other schemas match lookups by this schema too.
    DontMatchName,
}

/// A secret schema: its name, flags, and the names and types of its
/// attributes.
pub struct SecretSchema {
    pub name: String,
    pub flags: SchemaFlags,
    pub attributes: Vec<(&'static str, SchemaAttributeType)>,
}

/// The attribute that tells which secret of the application an item holds.
pub const SERVICE_ATTRIBUTE: &'static str = "service";

/// The alias of the default collection of the secret service.
pub const COLLECTION_DEFAULT: &'static str = "default";

/// Attributes as pairs of texts.
pub open spec fn attributes_view(attributes: Seq<(&'static str, &'static str)>) -> Seq<
    (Seq<char>, Seq<char>),
> {
    attributes.map_values(|a: (&'static str, &'static str)| (a.0@, a.1@))
}

/// The attributes that identify the secret of `service`.
pub open spec fn spec_service_attributes(service: AppSecretService) -> Seq<(Seq<char>, Seq<char>)> {
    seq![(SERVICE_ATTRIBUTE@, spec_service_name(service))]
}

/// Application secrets.
pub struct AppSecretsStorage {
    schema: SecretSchema,
}

/// A request to store `password` under `label` in `collection`, as the
/// secret of the service that `attributes` name.
pub struct PasswordStoreRequest<'a> {
    pub schema: &'a SecretSchema,
    pub attributes: Vec<(&'static str, &'static str)>,
    pub collection: Option<&'static str>,
    pub label: &'a str,
    pub password: &'a str,
}

/// A request to look up the password of the service that `attributes` name.
pub struct PasswordLookupRequest<'a> {
    pub schema: &'a SecretSchema,
    pub attributes: Vec<(&'static str, &'static str)>,
}

impl AppSecretsStorage {
    /// The schema of this storage.
    pub closed spec fn spec_schema(&self) -> SecretSchema {
        self.schema
    }

    /// The schema under which this storage keeps the application's secrets.
    pub fn schema(&self) -> (r: &SecretSchema)
        ensures
            *r == self.spec_schema(),
    {
        &self.schema
    }

    /// The storage for the application with the ID `id`: its schema is named
    /// `id`, has no flags, and one string attribute, `service`.
    pub fn new_for_id(id: &str) -> (r: Self)
        ensures
            r.spec_schema().name@ == id@,
            r.spec_schema().flags == SchemaFlags::NoFlags,
            r.spec_schema().attributes@ == seq![(SERVICE_ATTRIBUTE, SchemaAttributeType::String)],
    {
        let attributes = vec![(SERVICE_ATTRIBUTE, SchemaAttributeType::String)];
        let schema = SecretSchema { name: id.to_owned(), flags: SchemaFlags::NoFlags, attributes };
        AppSecretsStorage { schema }
    }
}

impl<'a> PasswordStoreRequest<'a> {
    /// This request stores `password` under `label` as the secret of
    /// `service` with the schema of `storage`, in the default collection.
    pub open spec fn is_for(
        &self,
        storage: &AppSecretsStorage,
        label: &str,
        service: AppSecretService,
        password: &str,
    ) -> bool {
        &&& *self.schema == storage.spec_schema()
        &&& attributes_view(self.attributes@) == spec_service_attributes(service)
        &&& self.collection == Some(COLLECTION_DEFAULT)
        &&& self.label@ == label@
        &&& self.password@ == password@
    }
}

impl<'a> PasswordLookupRequest<'a> {
    /// This request looks up the secret of `service` with the schema of
    /// `storage`.
    pub open spec fn is_for(&self, storage: &AppSecretsStorage, service: AppSecretService) -> bool {
        &&& *self.schema == storage.spec_schema()
        &&& attributes_view(self.attributes@) == spec_service_attributes(service)
    }
}

/// The attributes that identify the secret of `service`.
fn service_attributes(service: AppSecretService) -> (r: Vec<(&'static str, &'static str)>)
    ensures
        attributes_view(r@) == spec_service_attributes(service),
{
    let value: &'static str = service.into();
    let r = vec![(SERVICE_ATTRIBUTE, value)];
    assert(attributes_view(r@) =~= spec_service_attributes(service));
    r
}

impl AppSecretsStorage {
    /// What storing `password` under `label` as the secret of `service`
    /// asks of the secret service: store it with this storage's schema and
    /// the `service` attribute, in the default collection.
    pub fn store_password_request<'a>(
        &'a self,
        label: &'a str,
        service: AppSecretService,
        password: &'a str,
    ) -> (r: PasswordStoreRequest<'a>)
        ensures
            r.is_for(self, label, service, password),
    {
        PasswordStoreRequest {
            schema: &self.schema,
            attributes: service_attributes(service),
            collection: Some(COLLECTION_DEFAULT),
            label,
            password,
        }
    }

    /// What loading the password of `service` asks of the secret service:
    /// look it up with this storage's schema and the `service` attribute.
    pub fn lookup_password_request(&self, service: AppSecretService) -> (r: PasswordLookupRequest<
        '_,
    >)
        ensures
            r.is_for(self, service),
    {
        PasswordLookupRequest { schema: &self.schema, attributes: service_attributes(service) }
    }
}

/// A lookup for a service asks for exactly the item that a store for the same
/// service with the same storage wrote: same schema, same attributes.
pub proof fn lemma_lookup_matches_store(
    storage: &AppSecretsStorage,
    label: &str,
    service: AppSecretService,
    password: &str,
    store: PasswordStoreRequest,
    lookup: PasswordLookupRequest,
)
    requires
        store.is_for(storage, label, service, password),
        lookup.is_for(storage, service),
    ensures
        *store.schema == *lookup.schema,
        attributes_view(store.attributes@) == attributes_view(lookup.attributes@),
{
}

/// The secrets of different services are stored under different attributes,
/// so a lookup for one service never asks for the secret of another.
pub proof fn lemma_services_kept_apart(a: AppSecretService, b: AppSecretService)
    requires
        a != b,
    ensures
        spec_service_name(a) != spec_service_name(b),
        spec_service_attributes(a) != spec_service_attributes(b),
{
    reveal_strlit("SFTP");
    reveal_strlit("restic");
    assert(spec_service_name(a).len() != spec_service_name(b).len());
    assert(spec_service_attributes(a)[0] != spec_service_attributes(b)[0]);
}

} // verus!

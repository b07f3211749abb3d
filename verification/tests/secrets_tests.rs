use umbrella::secrets::{
    AppSecretService, AppSecretsStorage, SchemaAttributeType, SchemaFlags, COLLECTION_DEFAULT,
    SERVICE_ATTRIBUTE,
};

#[test]
fn service_attribute_values() {
    let sftp: &'static str = AppSecretService::Sftp.into();
    let restic: &'static str = AppSecretService::Restic.into();
    assert_eq!(sftp, "SFTP");
    assert_eq!(restic, "restic");
}

#[test]
fn schema_for_id() {
    let storage = AppSecretsStorage::new_for_id("de.swsnr.umbrella");
    let schema = storage.schema();
    assert_eq!(schema.name, "de.swsnr.umbrella");
    assert!(matches!(schema.flags, SchemaFlags::NoFlags));
    assert_eq!(schema.attributes.len(), 1);
    assert_eq!(schema.attributes[0].0, "service");
    assert!(matches!(schema.attributes[0].1, SchemaAttributeType::String));
}

#[test]
fn store_request() {
    let storage = AppSecretsStorage::new_for_id("de.swsnr.umbrella.Devel");
    let request = storage.store_password_request("Restic key", AppSecretService::Restic, "hunter2");
    assert_eq!(request.schema.name, "de.swsnr.umbrella.Devel");
    assert_eq!(request.attributes, vec![(SERVICE_ATTRIBUTE, "restic")]);
    assert_eq!(request.collection, Some("default"));
    assert_eq!(COLLECTION_DEFAULT, "default");
    assert_eq!(request.label, "Restic key");
    assert_eq!(request.password, "hunter2");
}

#[test]
fn lookup_matches_store() {
    let storage = AppSecretsStorage::new_for_id("de.swsnr.umbrella");
    for service in [AppSecretService::Sftp, AppSecretService::Restic] {
        let store = storage.store_password_request("label", service, "secret");
        let lookup = storage.lookup_password_request(service);
        assert!(std::ptr::eq(store.schema, lookup.schema));
        assert_eq!(store.attributes, lookup.attributes);
    }
}

#[test]
fn services_kept_apart() {
    let storage = AppSecretsStorage::new_for_id("de.swsnr.umbrella");
    let sftp = storage.lookup_password_request(AppSecretService::Sftp);
    let restic = storage.lookup_password_request(AppSecretService::Restic);
    assert_eq!(sftp.attributes, vec![("service", "SFTP")]);
    assert_ne!(sftp.attributes, restic.attributes);
}

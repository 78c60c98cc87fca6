use aiocogeo::error::AiocogeoError;
use aiocogeo::geo_key_directory::{text_param, GeoKeyDirectory, GeoKeyKind, GeoKeyTag};

#[test]
fn key_ids_round_trip() {
    let mut known = 0;
    for id in 0..=u16::MAX {
        if let Some(key) = GeoKeyTag::from_code(id) {
            assert_eq!(key.code(), id);
            known += 1;
        }
    }
    assert_eq!(known, 45);
    assert_eq!(GeoKeyTag::from_code(1024), Some(GeoKeyTag::ModelType));
    assert_eq!(GeoKeyTag::from_code(2048), Some(GeoKeyTag::GeographicType));
    assert_eq!(GeoKeyTag::from_code(3072), Some(GeoKeyTag::ProjectedType));
    assert_eq!(GeoKeyTag::from_code(3095), Some(GeoKeyTag::ProjStraightVertPoleLong));
    assert_eq!(GeoKeyTag::from_code(4099), Some(GeoKeyTag::VerticalUnits));
    assert_eq!(GeoKeyTag::from_code(1027), None);
    assert_eq!(GeoKeyTag::from_code(2062), None);
    assert_eq!(GeoKeyTag::from_code(3096), None);
    assert_eq!(GeoKeyTag::from_code(4100), None);
}

#[test]
fn the_type_of_a_value_goes_with_its_key() {
    assert_eq!(GeoKeyTag::ModelType.kind(), GeoKeyKind::Short);
    assert_eq!(GeoKeyTag::Citation.kind(), GeoKeyKind::Ascii);
    assert_eq!(GeoKeyTag::GeogCitation.kind(), GeoKeyKind::Ascii);
    assert_eq!(GeoKeyTag::ProjCitation.kind(), GeoKeyKind::Ascii);
    assert_eq!(GeoKeyTag::VerticalCitation.kind(), GeoKeyKind::Ascii);
    assert_eq!(GeoKeyTag::GeogSemiMajorAxis.kind(), GeoKeyKind::Double);
    assert_eq!(GeoKeyTag::GeogInvFlattening.kind(), GeoKeyKind::Double);
    assert_eq!(GeoKeyTag::ProjNatOriginLat.kind(), GeoKeyKind::Double);
    assert_eq!(GeoKeyTag::GeogAngularUnits.kind(), GeoKeyKind::Short);
    assert_eq!(GeoKeyTag::GeogAngularUnitSize.kind(), GeoKeyKind::Double);
    assert_eq!(GeoKeyTag::ProjLinearUnits.kind(), GeoKeyKind::Short);
    assert_eq!(GeoKeyTag::ProjLinearUnitSize.kind(), GeoKeyKind::Double);
    assert_eq!(GeoKeyTag::VerticalUnits.kind(), GeoKeyKind::Short);
}

#[test]
fn epsg_code_prefers_the_projected_crs() {
    let data = [1, 1, 0, 2, 2048, 0, 1, 4326, 3072, 0, 1, 32631];
    let keys = GeoKeyDirectory::from_tags(&data, None, None).unwrap();
    assert_eq!(keys.epsg_code(), Some(32631));
    assert_eq!(keys.short(GeoKeyTag::GeographicType), Some(4326));
    assert_eq!(keys.short(GeoKeyTag::ProjectedType), Some(32631));
    // The order of the records is of no account.
    let data = [1, 1, 0, 2, 3072, 0, 1, 32631, 2048, 0, 1, 4326];
    let keys = GeoKeyDirectory::from_tags(&data, None, None).unwrap();
    assert_eq!(keys.epsg_code(), Some(32631));
}

#[test]
fn epsg_code_falls_back_to_the_geographic_crs() {
    let data = [1, 1, 0, 2, 1024, 0, 1, 2, 2048, 0, 1, 4326];
    let keys = GeoKeyDirectory::from_tags(&data, None, None).unwrap();
    assert_eq!(keys.epsg_code(), Some(4326));
    assert_eq!(keys.short(GeoKeyTag::ModelType), Some(2));
    assert_eq!(keys.short(GeoKeyTag::ProjectedType), None);
}

#[test]
fn epsg_code_of_a_directory_without_crs() {
    let data = [1, 1, 0, 1, 1025, 0, 1, 1];
    let keys = GeoKeyDirectory::from_tags(&data, None, None).unwrap();
    assert_eq!(keys.epsg_code(), None);
    let keys = GeoKeyDirectory::from_tags(&[1, 1, 0, 0], None, None).unwrap();
    assert_eq!(keys.epsg_code(), None);
}

#[test]
fn a_text_value_loses_its_trailing_separator() {
    assert_eq!(text_param("WGS 84|", 0, 7), Some("WGS 84".to_string()));
    let data = [1, 1, 0, 1, 2049, 34737, 7, 0];
    let keys = GeoKeyDirectory::from_tags(&data, Some("WGS 84|"), None).unwrap();
    assert_eq!(keys.text(GeoKeyTag::GeogCitation), Some(&"WGS 84".to_string()));
    assert_eq!(keys.text(GeoKeyTag::Citation), None);
}

#[test]
fn text_values_are_pieces_of_the_text_parameters() {
    let params = "UTM zone 31N|WGS 84|";
    assert_eq!(text_param(params, 0, 13), Some("UTM zone 31N".to_string()));
    assert_eq!(text_param(params, 13, 7), Some("WGS 84".to_string()));
    assert_eq!(text_param(params, 13, 6), Some("WGS 84".to_string()));
    assert_eq!(text_param(params, 4, 4), Some("zone".to_string()));
    assert_eq!(text_param(params, 12, 1), Some(String::new()));
    assert_eq!(text_param(params, 12, 2), Some("|W".to_string()));
    assert_eq!(text_param(params, 20, 0), Some(String::new()));
    assert_eq!(text_param(params, 0, 0), Some(String::new()));
    assert_eq!(text_param(params, 13, 8), None);
    assert_eq!(text_param(params, 21, 0), None);
    assert_eq!(text_param(params, 65535, 65535), None);
}

#[test]
fn a_text_value_must_be_cut_between_characters() {
    let params = "caf\u{e9}|";
    assert_eq!(params.len(), 6);
    assert_eq!(text_param(params, 0, 6), Some("caf\u{e9}".to_string()));
    assert_eq!(text_param(params, 0, 5), Some("caf\u{e9}".to_string()));
    assert_eq!(text_param(params, 0, 4), None);
    assert_eq!(text_param(params, 4, 2), None);
    assert_eq!(text_param(params, 3, 2), Some("\u{e9}".to_string()));
}

#[test]
fn double_values_come_from_the_double_parameters() {
    let doubles = [6378137.0f64.to_bits(), 298.257223563f64.to_bits()];
    let data = [1, 1, 0, 2, 2057, 34736, 1, 0, 2059, 34736, 1, 1];
    let keys = GeoKeyDirectory::from_tags(&data, None, Some(&doubles)).unwrap();
    assert_eq!(keys.double_bits(GeoKeyTag::GeogSemiMajorAxis).map(f64::from_bits), Some(6378137.0));
    assert_eq!(
        keys.double_bits(GeoKeyTag::GeogInvFlattening).map(f64::from_bits),
        Some(298.257223563)
    );
    assert_eq!(keys.double_bits(GeoKeyTag::GeogSemiMinorAxis), None);
    assert_eq!(keys.short(GeoKeyTag::GeogSemiMajorAxis), None);
}

#[test]
fn a_later_record_of_a_key_replaces_an_earlier_one() {
    let data = [1, 1, 0, 2, 3072, 0, 1, 32631, 3072, 0, 1, 32632];
    let keys = GeoKeyDirectory::from_tags(&data, None, None).unwrap();
    assert_eq!(keys.epsg_code(), Some(32632));
}

#[test]
fn records_with_another_location_are_passed_over() {
    let data = [1, 1, 0, 2, 3072, 34999, 1, 0, 2048, 0, 1, 4326];
    let keys = GeoKeyDirectory::from_tags(&data, None, None).unwrap();
    assert_eq!(keys.short(GeoKeyTag::ProjectedType), None);
    assert_eq!(keys.epsg_code(), Some(4326));
}

#[test]
fn numbers_behind_the_key_records_are_not_looked_at() {
    let data = [1, 1, 0, 1, 2048, 0, 1, 4326, 9999, 9999];
    let keys = GeoKeyDirectory::from_tags(&data, None, None).unwrap();
    assert_eq!(keys.epsg_code(), Some(4326));
}

#[test]
fn the_header_must_name_version_one() {
    for data in [[2u16, 1, 0, 0], [1, 2, 0, 0], [0, 0, 0, 0], [0, 1, 0, 0]] {
        assert_eq!(
            GeoKeyDirectory::from_tags(&data, None, None).err(),
            Some(AiocogeoError::UnsupportedFormat)
        );
    }
    // The minor revision is free.
    assert!(GeoKeyDirectory::from_tags(&[1, 1, 7, 0], None, None).is_ok());
}

#[test]
fn the_directory_must_hold_its_header_and_its_records() {
    for data in [&[][..], &[1][..], &[1, 1, 0][..], &[1, 1, 0, 1][..], &[1, 1, 0, 1, 2048, 0, 1][..]] {
        assert_eq!(
            GeoKeyDirectory::from_tags(data, None, None).err(),
            Some(AiocogeoError::InvalidGeoKeyDirectory)
        );
    }
    let data = [1, 1, 0, 65535, 2048, 0, 1, 4326];
    assert_eq!(
        GeoKeyDirectory::from_tags(&data, None, None).err(),
        Some(AiocogeoError::InvalidGeoKeyDirectory)
    );
}

#[test]
fn unknown_keys_are_refused() {
    let data = [1, 1, 0, 2, 2048, 0, 1, 4326, 5000, 0, 1, 1];
    assert_eq!(
        GeoKeyDirectory::from_tags(&data, None, None).err(),
        Some(AiocogeoError::UnsupportedGeoKey)
    );
    // Also where the record would be passed over for its location.
    let data = [1, 1, 0, 1, 5000, 34999, 1, 1];
    assert_eq!(
        GeoKeyDirectory::from_tags(&data, None, None).err(),
        Some(AiocogeoError::UnsupportedGeoKey)
    );
}

#[test]
fn a_value_of_another_type_than_its_key_is_refused() {
    let doubles = [1.0f64.to_bits(), 2.0f64.to_bits()];
    let cases: [&[u16]; 6] = [
        // A short for a text key.
        &[1, 1, 0, 1, 1026, 0, 1, 5],
        // A short for a double key.
        &[1, 1, 0, 1, 2057, 0, 1, 5],
        // A text for a short key.
        &[1, 1, 0, 1, 2048, 34737, 3, 0],
        // A double for a short key.
        &[1, 1, 0, 1, 2048, 34736, 1, 0],
        // Two doubles for a double key.
        &[1, 1, 0, 1, 2057, 34736, 2, 0],
        // No double for a double key.
        &[1, 1, 0, 1, 2057, 34736, 0, 0],
    ];
    for data in cases {
        assert_eq!(
            GeoKeyDirectory::from_tags(data, Some("abc|"), Some(&doubles)).err(),
            Some(AiocogeoError::InvalidGeoKeyDirectory)
        );
    }
}

#[test]
fn references_beyond_the_parameters_are_refused() {
    let doubles = [1.0f64.to_bits()];
    let cases: [&[u16]; 3] = [
        &[1, 1, 0, 1, 1026, 34737, 5, 0],
        &[1, 1, 0, 1, 1026, 34737, 1, 4],
        &[1, 1, 0, 1, 2057, 34736, 1, 1],
    ];
    for data in cases {
        assert_eq!(
            GeoKeyDirectory::from_tags(data, Some("abc|"), Some(&doubles)).err(),
            Some(AiocogeoError::InvalidGeoKeyDirectory)
        );
    }
    let data = [1, 1, 0, 1, 1026, 34737, 4, 0];
    assert_eq!(
        GeoKeyDirectory::from_tags(&data, None, Some(&doubles)).err(),
        Some(AiocogeoError::InvalidGeoKeyDirectory)
    );
    let data = [1, 1, 0, 1, 2057, 34736, 1, 0];
    assert_eq!(
        GeoKeyDirectory::from_tags(&data, Some("abc|"), None).err(),
        Some(AiocogeoError::InvalidGeoKeyDirectory)
    );
}

#[test]
fn the_first_record_that_is_refused_gives_the_error() {
    let data = [1, 1, 0, 2, 1026, 0, 1, 5, 5000, 0, 1, 1];
    assert_eq!(
        GeoKeyDirectory::from_tags(&data, None, None).err(),
        Some(AiocogeoError::InvalidGeoKeyDirectory)
    );
    let data = [1, 1, 0, 2, 5000, 0, 1, 1, 1026, 0, 1, 5];
    assert_eq!(
        GeoKeyDirectory::from_tags(&data, None, None).err(),
        Some(AiocogeoError::UnsupportedGeoKey)
    );
}

use fitsio::error::{fits_try, status_to_string, FitsError};
use fitsio::fitsfile::{FitsFile, FitsHdu, ImageDescription};
use fitsio::model::{Hdu, HduData};
use fitsio::types::{typechar_to_data_type, ColumnDescription, DataType, HduInfo, ImageType};

/// The HDUs of the example file: a 100 x 100 primary image and a binary
/// table named TESTEXT with 50 rows and three columns.
fn full_example() -> Vec<Hdu> {
    let primary = Hdu { data: HduData::Image { bitpix: 32, naxes: vec![100, 100] }, extname: None, hduname: None };
    let table = Hdu {
        data: HduData::Table {
            ascii: false,
            num_rows: 50,
            columns: vec![
                ColumnDescription { name: "intcol".to_string(), data_type: "1J".to_string() },
                ColumnDescription { name: "floatcol".to_string(), data_type: "1E".to_string() },
                ColumnDescription { name: "doublecol".to_string(), data_type: "1D".to_string() },
            ],
        },
        extname: Some("TESTEXT".to_string()),
        hduname: None,
    };
    vec![primary, table]
}

fn open_example() -> FitsFile {
    FitsFile::open("../testdata/full_example.fits".to_string(), full_example()).unwrap()
}

#[test]
fn typechar_conversions() {
    let input = vec!["X", "B", "L", "A", "I", "J", "E", "D", "C", "M"];
    let expected = vec![
        DataType::TBIT,
        DataType::TBYTE,
        DataType::TLOGICAL,
        DataType::TSTRING,
        DataType::TSHORT,
        DataType::TLONG,
        DataType::TFLOAT,
        DataType::TDOUBLE,
        DataType::TCOMPLEX,
        DataType::TDBLCOMPLEX,
    ];

    for (i, e) in input.iter().zip(expected) {
        assert_eq!(typechar_to_data_type(i), e);
    }
}

#[test]
fn opening_an_existing_file() {
    match FitsFile::open("../testdata/full_example.fits".to_string(), full_example()) {
        Ok(_) => {}
        Err(e) => panic!("{:?}", e),
    }
}

#[test]
fn creating_a_new_file() {
    let mut f = FitsFile::create("test.fits".to_string()).unwrap();
    // Ensure the empty primary has been written: no axes (NAXIS = 0)
    match f.hdu(0).unwrap().info {
        HduInfo::ImageInfo { shape } => assert_eq!(shape.len(), 0),
        other => panic!("{:?}", other),
    }
}

#[test]
fn fetching_a_hdu() {
    let mut f = open_example();
    for i in 0..2 {
        f.change_hdu(i).unwrap();
        assert_eq!(f.hdu_number(), i);
    }

    match f.change_hdu(2) {
        Err(e) => assert_eq!(e.status, 107),
        _ => panic!("Error checking for failure"),
    }

    f.change_hdu("TESTEXT").unwrap();
    assert_eq!(f.hdu_number(), 1);
}

#[test]
fn fetching_hdu_info() {
    let mut f = open_example();
    match f.fetch_hdu_info() {
        Ok(HduInfo::ImageInfo { shape }) => {
            assert_eq!(shape.len(), 2);
            assert_eq!(shape, vec![100, 100]);
        }
        Err(e) => panic!("Error fetching hdu info {:?}", e),
        _ => panic!("Unknown error"),
    }

    f.change_hdu(1).unwrap();
    match f.fetch_hdu_info() {
        Ok(HduInfo::TableInfo { column_descriptions, num_rows }) => {
            assert_eq!(num_rows, 50);
            assert_eq!(
                column_descriptions.iter().map(|desc| desc.name.clone()).collect::<Vec<String>>(),
                vec!["intcol".to_string(), "floatcol".to_string(), "doublecol".to_string()]
            );
            assert_eq!(
                column_descriptions
                    .iter()
                    .map(|desc| typechar_to_data_type(desc.data_type.as_str()))
                    .collect::<Vec<DataType>>(),
                vec![DataType::TLONG, DataType::TFLOAT, DataType::TDOUBLE]
            );
        }
        Err(e) => panic!("Error fetching hdu info {:?}", e),
        _ => panic!("Unknown error"),
    }
}

#[test]
fn cloning() {
    let mut f = open_example();
    let f2 = f.clone();

    assert_eq!(f2.filename, f.filename);

    f.change_hdu(1).unwrap();
    assert!(f.hdu_number() != f2.hdu_number());
}

#[test]
fn test_fits_try() {
    let status = 0;
    assert_eq!(fits_try(status, 10), Ok(10));

    let status = 105;
    assert_eq!(
        fits_try(status, 10),
        Err(FitsError { status: status, message: status_to_string(status) })
    );
}

#[test]
fn adding_new_table() {
    let f = {
        let mut f = FitsFile::create("test.fits".to_string()).unwrap();
        let table_description = vec![ColumnDescription {
            name: "bar".to_string(),
            data_type: "1J".to_string(),
        }];
        f.create_table("foo".to_string(), &table_description).unwrap();
        f
    };

    let mut f = f.clone();
    f.change_hdu("foo").unwrap();
    match f.fetch_hdu_info() {
        Ok(HduInfo::TableInfo { column_descriptions, .. }) => {
            let column_names =
                column_descriptions.iter().map(|desc| desc.name.clone()).collect::<Vec<String>>();
            let column_types = column_descriptions
                .iter()
                .map(|desc| typechar_to_data_type(desc.data_type.as_str()))
                .collect::<Vec<DataType>>();
            assert_eq!(column_names, vec!["bar".to_string()]);
            assert_eq!(column_types, vec![DataType::TLONG]);
        }
        thing => panic!("{:?}", thing),
    }
}

#[test]
fn adding_new_image() {
    let f = {
        let mut f = FitsFile::create("test.fits".to_string()).unwrap();
        let image_description =
            ImageDescription { data_type: ImageType::LONG_IMG, dimensions: vec![100, 20] };
        f.create_image("foo".to_string(), &image_description).unwrap();
        f
    };

    let mut f = f.clone();
    f.change_hdu("foo").unwrap();
    match f.fetch_hdu_info() {
        Ok(HduInfo::ImageInfo { shape, .. }) => {
            assert_eq!(shape, vec![100, 20]);
        }
        thing => panic!("{:?}", thing),
    }
}

#[test]
fn fetching_hdu_object_hdu_info() {
    let mut f = open_example();
    let testext = f.hdu("TESTEXT").unwrap();
    match testext.info {
        HduInfo::TableInfo { num_rows, .. } => {
            assert_eq!(num_rows, 50);
        }
        _ => panic!("Incorrect HDU type found"),
    }
}

#[test]
fn fetch_current_hdu() {
    let mut f = open_example();
    f.change_hdu("TESTEXT").unwrap();
    let hdu = f.current_hdu().unwrap();

    assert_eq!(hdu.extname.unwrap(), "TESTEXT".to_string());
}

#[test]
fn creating_new_image_returns_hdu_object() {
    let mut f = FitsFile::create("test.fits".to_string()).unwrap();
    let image_description =
        ImageDescription { data_type: ImageType::LONG_IMG, dimensions: vec![100, 20] };
    let hdu: FitsHdu = f.create_image("foo".to_string(), &image_description).unwrap();
    assert_eq!(hdu.extname.unwrap(), "foo".to_string());
}

#[test]
fn creating_new_table_returns_hdu_object() {
    let mut f = FitsFile::create("test.fits".to_string()).unwrap();
    let table_description =
        vec![ColumnDescription { name: "bar".to_string(), data_type: "1J".to_string() }];
    let hdu: FitsHdu = f.create_table("foo".to_string(), &table_description).unwrap();
    assert_eq!(hdu.extname.unwrap(), "foo".to_string());
}

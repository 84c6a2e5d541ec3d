use fitsio::error::{fits_try, status_to_string};
use fitsio::fitsfile::{FitsFile, ImageDescription};
use fitsio::model::{Hdu, HduData};
use fitsio::text::{key_value_string, parse_tform, template_match, to_upper_string};
use fitsio::types::{ColumnDescription, HduInfo, ImageType};

fn image(naxes: Vec<i64>, extname: Option<&str>) -> Hdu {
    Hdu {
        data: HduData::Image { bitpix: 16, naxes },
        extname: extname.map(|s| s.to_string()),
        hduname: None,
    }
}

fn table(num_rows: i64, columns: Vec<(&str, &str)>, extname: Option<&str>) -> Hdu {
    Hdu {
        data: HduData::Table {
            ascii: false,
            num_rows,
            columns: columns
                .into_iter()
                .map(|(n, t)| ColumnDescription { name: n.to_string(), data_type: t.to_string() })
                .collect(),
        },
        extname: extname.map(|s| s.to_string()),
        hduname: None,
    }
}

fn three_hdus() -> Vec<Hdu> {
    vec![
        image(vec![4, 5], None),
        table(3, vec![("a", "1J")], Some("EVENTS")),
        image(vec![7], Some("events")),
    ]
}

#[test]
fn fits_try_carries_the_status_text() {
    let e = fits_try(107, ()).unwrap_err();
    assert_eq!(e.status, 107);
    assert_eq!(e.message, "tried to move past end of file");
    assert_eq!(status_to_string(301), "illegal HDU number");
    assert_eq!(status_to_string(112), "cannot write to readonly file");
    assert_eq!(status_to_string(0), "OK - no error");
    assert_eq!(status_to_string(12345), "unknown error status");
}

#[test]
fn open_refuses_empty_contents() {
    let e = FitsFile::open("x.fits".to_string(), vec![]).unwrap_err();
    assert_eq!(e.status, 107);
}

#[test]
fn open_refuses_a_table_first() {
    let e = FitsFile::open("x.fits".to_string(), vec![table(1, vec![], None)]).unwrap_err();
    assert_eq!(e.status, 221);
}

#[test]
fn open_refuses_a_bad_primary_header() {
    let e = FitsFile::open("x.fits".to_string(), vec![image(vec![3, -1], None)]).unwrap_err();
    assert_eq!(e.status, 213);
    let e = FitsFile::open("x.fits".to_string(), vec![image(vec![1; 1000], None)]).unwrap_err();
    assert_eq!(e.status, 212);
    let bad = Hdu { data: HduData::Image { bitpix: 12, naxes: vec![] }, extname: None, hduname: None };
    assert_eq!(FitsFile::open("x.fits".to_string(), vec![bad]).unwrap_err().status, 211);
    let unreadable = Hdu { data: HduData::Unreadable { status: 252 }, extname: None, hduname: None };
    assert_eq!(FitsFile::open("x.fits".to_string(), vec![unreadable]).unwrap_err().status, 252);
}

#[test]
fn later_bad_headers_fail_when_reached() {
    let cols = (0..1000).map(|_| ("c", "1J")).collect();
    let bad = vec![
        (table(-2, vec![], Some("NEG")), 218),
        (table(0, cols, Some("WIDE")), 216),
        (table(0, vec![("c", "1Z")], Some("BADFORM")), 261),
        (Hdu { data: HduData::Unreadable { status: 0 }, extname: None, hduname: None }, 107),
        (Hdu { data: HduData::Unreadable { status: 108 }, extname: None, hduname: None }, 108),
    ];
    for (hdu, status) in bad {
        let mut f = FitsFile::open("x.fits".to_string(), vec![image(vec![], None), hdu]).unwrap();
        assert_eq!(f.change_hdu(1usize).unwrap_err().status, status);
        assert_eq!(f.hdu_number(), 0);
    }
}

#[test]
fn moves_cannot_get_past_an_unreadable_header() {
    let hdus = vec![image(vec![], None), table(-2, vec![], Some("NEG")), image(vec![2], Some("AFTER"))];
    let mut f = FitsFile::edit("x.fits".to_string(), hdus).unwrap();
    assert_eq!(f.change_hdu(2usize).unwrap_err().status, 218);
    assert_eq!(f.change_hdu(7usize).unwrap_err().status, 218);
    assert_eq!(f.change_hdu("AFTER").unwrap_err().status, 301);
    let e = f.create_table("T".to_string(), &[]).unwrap_err();
    assert_eq!(e.status, 218);
    assert_eq!(e.message, "negative number of rows");
    let desc = ImageDescription { data_type: ImageType::BYTE_IMG, dimensions: vec![1] };
    assert_eq!(f.create_image("I".to_string(), &desc).unwrap_err().status, 218);
    assert_eq!(f.hdu_number(), 0);
    assert_eq!(f.change_hdu(0usize), Ok(()));
}

#[test]
fn template_names_select_hdus() {
    let mut f = FitsFile::open("x.fits".to_string(), three_hdus()).unwrap();
    f.change_hdu("EV*").unwrap();
    assert_eq!(f.hdu_number(), 1);
    f.change_hdu(0usize).unwrap();
    f.change_hdu("?vents").unwrap();
    assert_eq!(f.hdu_number(), 1);
    assert_eq!(f.change_hdu("IMG*").unwrap_err().status, 301);
    assert_eq!(f.hdu_number(), 1);
    let hdus = vec![
        image(vec![], None),
        table(50, vec![("intcol", "1J")], Some("TESTEXT")),
        image(vec![3], Some("EXT12")),
    ];
    let mut g = FitsFile::open("x.fits".to_string(), hdus).unwrap();
    g.change_hdu("TEST*").unwrap();
    assert_eq!(g.hdu_number(), 1);
    g.change_hdu("ext#").unwrap();
    assert_eq!(g.hdu_number(), 2);
}

#[test]
fn name_search_stops_at_an_unreadable_header() {
    let hdus = vec![
        image(vec![], None),
        Hdu { data: HduData::Unreadable { status: 252 }, extname: None, hduname: None },
        image(vec![2], Some("AFTER")),
    ];
    let mut f = FitsFile::open("x.fits".to_string(), hdus).unwrap();
    assert_eq!(f.change_hdu("AFTER").unwrap_err().status, 301);
    assert_eq!(f.hdu_number(), 0);
}

#[test]
fn name_search_uses_hduname() {
    let hdus = vec![
        image(vec![], None),
        Hdu {
            data: HduData::Image { bitpix: 8, naxes: vec![3] },
            extname: Some("OTHER".to_string()),
            hduname: Some("Alias".to_string()),
        },
        Hdu {
            data: HduData::Image { bitpix: 8, naxes: vec![4] },
            extname: None,
            hduname: Some("ONLY".to_string()),
        },
    ];
    let mut f = FitsFile::open("x.fits".to_string(), hdus).unwrap();
    f.change_hdu("alias").unwrap();
    assert_eq!(f.hdu_number(), 1);
    f.change_hdu("only").unwrap();
    assert_eq!(f.hdu_number(), 2);
    f.change_hdu("other").unwrap();
    assert_eq!(f.hdu_number(), 1);
}

#[test]
fn ascii_table_columns_are_refused() {
    let ascii = Hdu {
        data: HduData::Table {
            ascii: true,
            num_rows: 4,
            columns: vec![ColumnDescription { name: "a".to_string(), data_type: "F8.3".to_string() }],
        },
        extname: Some("ASC".to_string()),
        hduname: None,
    };
    let empty_ascii = Hdu {
        data: HduData::Table { ascii: true, num_rows: 2, columns: vec![] },
        extname: None,
        hduname: None,
    };
    let mut f = FitsFile::open("x.fits".to_string(), vec![image(vec![], None), ascii, empty_ascii]).unwrap();
    f.change_hdu(1usize).unwrap();
    let e = f.fetch_hdu_info().unwrap_err();
    assert_eq!(e.status, 227);
    assert_eq!(e.message, "CHDU not a binary table");
    assert_eq!(f.current_hdu().unwrap_err().status, 227);
    let e = f.hdu("ASC").unwrap_err();
    assert_eq!(e.status, 227);
    assert_eq!(f.hdu_number(), 1);
    assert_eq!(
        f.hdu(2usize).unwrap().info,
        HduInfo::TableInfo { column_descriptions: vec![], num_rows: 2 }
    );
}

#[test]
fn open_starts_at_the_primary_hdu() {
    let f = FitsFile::open("x.fits".to_string(), three_hdus()).unwrap();
    assert_eq!(f.hdu_number(), 0);
    assert_eq!(f.filename, "x.fits");
}

#[test]
fn select_by_number_then_number_is_reported() {
    let mut f = FitsFile::open("x.fits".to_string(), three_hdus()).unwrap();
    for i in [2usize, 0, 1] {
        f.change_hdu(i).unwrap();
        assert_eq!(f.hdu_number(), i);
    }
}

#[test]
fn select_past_end_fails_and_keeps_position() {
    let mut f = FitsFile::open("x.fits".to_string(), three_hdus()).unwrap();
    f.change_hdu(1usize).unwrap();
    let e = f.change_hdu(3usize).unwrap_err();
    assert_eq!(e.status, 107);
    assert_eq!(e.message, "tried to move past end of file");
    assert_eq!(f.hdu_number(), 1);
    let e = f.change_hdu(usize::MAX).unwrap_err();
    assert_eq!(e.status, 107);
    assert_eq!(f.hdu_number(), 1);
}

#[test]
fn select_by_name_takes_the_first_match_ignoring_case() {
    let mut f = FitsFile::open("x.fits".to_string(), three_hdus()).unwrap();
    f.change_hdu("events").unwrap();
    assert_eq!(f.hdu_number(), 1);
    f.change_hdu(0usize).unwrap();
    f.change_hdu("EvEnTs").unwrap();
    assert_eq!(f.hdu_number(), 1);
}

#[test]
fn select_unknown_name_fails_and_keeps_position() {
    let mut f = FitsFile::open("x.fits".to_string(), three_hdus()).unwrap();
    f.change_hdu(2usize).unwrap();
    let e = f.change_hdu("NOPE").unwrap_err();
    assert_eq!(e.status, 301);
    assert_eq!(e.message, "illegal HDU number");
    assert_eq!(f.hdu_number(), 2);
    let e = f.change_hdu("EVENT").unwrap_err();
    assert_eq!(e.status, 301);
}

#[test]
fn hdu_selects_and_describes() {
    let mut f = FitsFile::open("x.fits".to_string(), three_hdus()).unwrap();
    let h = f.hdu(2usize).unwrap();
    assert_eq!(f.hdu_number(), 2);
    assert_eq!(h.hdu_num, 2);
    assert_eq!(h.info, HduInfo::ImageInfo { shape: vec![7] });
    assert_eq!(h.extname, Some("events".to_string()));
    let e = f.hdu(9usize).unwrap_err();
    assert_eq!(e.status, 107);
    assert_eq!(f.hdu_number(), 2);
}

#[test]
fn current_hdu_leaves_position() {
    let mut f = FitsFile::open("x.fits".to_string(), three_hdus()).unwrap();
    f.change_hdu(1usize).unwrap();
    let a = f.current_hdu().unwrap();
    let b = f.current_hdu().unwrap();
    assert_eq!(a, b);
    assert_eq!(f.hdu_number(), 1);
    assert_eq!(
        a.info,
        HduInfo::TableInfo {
            column_descriptions: vec![ColumnDescription {
                name: "a".to_string(),
                data_type: "J".to_string()
            }],
            num_rows: 3
        }
    );
}

#[test]
fn read_only_file_refuses_writes() {
    let mut f = FitsFile::open("x.fits".to_string(), three_hdus()).unwrap();
    f.change_hdu(1usize).unwrap();
    let cols = vec![ColumnDescription { name: "c".to_string(), data_type: "1E".to_string() }];
    let e = f.create_table("T".to_string(), &cols).unwrap_err();
    assert_eq!(e.status, 112);
    let desc = ImageDescription { data_type: ImageType::SHORT_IMG, dimensions: vec![2] };
    let e = f.create_image("I".to_string(), &desc).unwrap_err();
    assert_eq!(e.status, 112);
    assert_eq!(f.hdu_number(), 1);
    assert_eq!(f.change_hdu(3usize).unwrap_err().status, 107);
}

#[test]
fn edit_allows_writes_and_appends_at_the_end() {
    let mut f = FitsFile::edit("x.fits".to_string(), three_hdus()).unwrap();
    let cols = vec![
        ColumnDescription { name: "x".to_string(), data_type: "20A".to_string() },
        ColumnDescription { name: "y".to_string(), data_type: "D".to_string() },
    ];
    let h = f.create_table("NEW".to_string(), &cols).unwrap();
    assert_eq!(h.hdu_num, 3);
    assert_eq!(f.hdu_number(), 3);
    assert_eq!(
        h.info,
        HduInfo::TableInfo {
            column_descriptions: vec![
                ColumnDescription { name: "x".to_string(), data_type: "A".to_string() },
                ColumnDescription { name: "y".to_string(), data_type: "D".to_string() },
            ],
            num_rows: 0
        }
    );
    f.change_hdu(0usize).unwrap();
    assert_eq!(f.hdu(0usize).unwrap().info, HduInfo::ImageInfo { shape: vec![4, 5] });
}

#[test]
fn table_without_name_has_no_extname() {
    let mut f = FitsFile::create("n.fits".to_string()).unwrap();
    let h = f.create_table(String::new(), &[]).unwrap();
    assert_eq!(h.extname, None);
    assert_eq!(f.change_hdu("").unwrap_err().status, 301);
}

#[test]
fn image_is_named_and_shaped() {
    let mut f = FitsFile::create("n.fits".to_string()).unwrap();
    let desc = ImageDescription { data_type: ImageType::DOUBLE_IMG, dimensions: vec![3, 0, 2] };
    let h = f.create_image("img".to_string(), &desc).unwrap();
    assert_eq!(h.hdu_num, 1);
    assert_eq!(h.extname, Some("img".to_string()));
    assert_eq!(h.info, HduInfo::ImageInfo { shape: vec![3, 0, 2] });
    let h2 = f.create_image(String::new(), &desc).unwrap();
    assert_eq!(h2.extname, Some(String::new()));
    let h3 = f.create_image("padded   ".to_string(), &desc).unwrap();
    assert_eq!(h3.extname, Some("padded".to_string()));
    f.change_hdu("IMG").unwrap();
    assert_eq!(f.hdu_number(), 1);
}

#[test]
fn image_limits_are_refused() {
    let mut f = FitsFile::create("n.fits".to_string()).unwrap();
    let desc = ImageDescription { data_type: ImageType::BYTE_IMG, dimensions: vec![1; 1000] };
    assert_eq!(f.create_image("a".to_string(), &desc).unwrap_err().status, 212);
    let desc = ImageDescription { data_type: ImageType::BYTE_IMG, dimensions: vec![usize::MAX] };
    assert_eq!(f.create_image("a".to_string(), &desc).unwrap_err().status, 213);
    assert_eq!(f.hdu_number(), 0);
    assert_eq!(f.change_hdu(1usize).unwrap_err().status, 107);
}

#[test]
fn table_column_limit_is_refused() {
    let mut f = FitsFile::create("n.fits".to_string()).unwrap();
    let cols: Vec<ColumnDescription> = (0..1000)
        .map(|_| ColumnDescription { name: "c".to_string(), data_type: "1J".to_string() })
        .collect();
    assert_eq!(f.create_table("t".to_string(), &cols).unwrap_err().status, 216);
    assert_eq!(f.change_hdu(1usize).unwrap_err().status, 107);
}

#[test]
fn clone_reopens_read_only_at_first_hdu() {
    let mut f = FitsFile::edit("x.fits".to_string(), three_hdus()).unwrap();
    f.change_hdu(2usize).unwrap();
    let mut g = f.clone();
    assert_eq!(g.hdu_number(), 0);
    assert_eq!(g.hdu(2usize).unwrap(), f.current_hdu().unwrap());
    let e = g.create_image("z".to_string(), &ImageDescription {
        data_type: ImageType::FLOAT_IMG,
        dimensions: vec![1],
    });
    assert_eq!(e.unwrap_err().status, 112);
}

#[test]
fn bitpix_and_type_codes() {
    assert_eq!(ImageType::BYTE_IMG.bitpix(), 8);
    assert_eq!(ImageType::SHORT_IMG.bitpix(), 16);
    assert_eq!(ImageType::LONG_IMG.bitpix(), 32);
    assert_eq!(ImageType::LONGLONG_IMG.bitpix(), 64);
    assert_eq!(ImageType::FLOAT_IMG.bitpix(), -32);
    assert_eq!(ImageType::DOUBLE_IMG.bitpix(), -64);
    assert_eq!(HduInfo::ImageInfo { shape: vec![] }.type_code(), 0);
    assert_eq!(HduInfo::TableInfo { column_descriptions: vec![], num_rows: 0 }.type_code(), 2);
    assert_eq!(HduInfo::AnyInfo.type_code(), -1);
}

#[test]
fn tform_type_codes() {
    assert_eq!(parse_tform("1J"), Some("J".to_string()));
    assert_eq!(parse_tform("J"), Some("J".to_string()));
    assert_eq!(parse_tform("1PJ(100)"), Some("PJ".to_string()));
    assert_eq!(parse_tform("1qe(5)"), Some("PE".to_string()));
    assert_eq!(parse_tform("20A10"), Some("A".to_string()));
    assert_eq!(parse_tform("1j"), Some("J".to_string()));
    assert_eq!(parse_tform("42"), None);
    assert_eq!(parse_tform("1Z"), None);
    assert_eq!(parse_tform("P"), None);
    assert_eq!(parse_tform(""), None);
}

#[test]
fn upper_casing_and_key_values() {
    assert_eq!(to_upper_string("1pj(10)"), "1PJ(10)");
    assert_eq!(key_value_string("name   "), "name");
    assert_eq!(key_value_string("  lead"), "  lead");
    assert_eq!(key_value_string("   "), "");
    let long: String = "x".repeat(70);
    assert_eq!(key_value_string(&long), "x".repeat(68));
}

#[test]
fn created_table_reports_parsed_type_codes() {
    let mut f = FitsFile::create("n.fits".to_string()).unwrap();
    let cols = vec![
        ColumnDescription { name: "v".to_string(), data_type: "1PJ(100)".to_string() },
        ColumnDescription { name: "s".to_string(), data_type: "20a10".to_string() },
        ColumnDescription { name: "i".to_string(), data_type: "1j".to_string() },
    ];
    let h = f.create_table("T  ".to_string(), &cols).unwrap();
    assert_eq!(h.extname, Some("T".to_string()));
    assert_eq!(
        h.info,
        HduInfo::TableInfo {
            column_descriptions: vec![
                ColumnDescription { name: "v".to_string(), data_type: "PJ".to_string() },
                ColumnDescription { name: "s".to_string(), data_type: "A".to_string() },
                ColumnDescription { name: "i".to_string(), data_type: "J".to_string() },
            ],
            num_rows: 0
        }
    );
}

#[test]
fn table_with_unknown_tform_is_refused() {
    let mut f = FitsFile::create("n.fits".to_string()).unwrap();
    let cols = vec![ColumnDescription { name: "q".to_string(), data_type: "1Z".to_string() }];
    let e = f.create_table("T".to_string(), &cols).unwrap_err();
    assert_eq!(e.status, 261);
    assert_eq!(e.message, "illegal TFORM format code");
    assert_eq!(f.change_hdu(1usize).unwrap_err().status, 107);
}

#[test]
fn templates_match_names() {
    assert!(template_match("TestExt", "TESTEXT"));
    assert!(!template_match("TestExt", "TESTEX"));
    assert!(!template_match("a_b", "a-b"));
    assert!(template_match("", ""));
    assert!(template_match("name  ", "NAME"));
    assert!(template_match("TEST*", "TESTEXT"));
    assert!(template_match("t?stext", "TESTEXT"));
    assert!(template_match("*", "anything"));
    assert!(template_match("T*T", "TEXT"));
    assert!(!template_match("T*T", "TEXTS"));
    assert!(template_match("EXT#", "EXT12"));
    assert!(!template_match("EXT#", "EXT"));
    assert!(!template_match("EXT#", "EXT1A"));
    assert!(template_match("EXT#A", "ext12a"));
    assert!(!template_match("?", ""));
}

#[test]
fn key_values_as_cards_hold_them() {
    let q: String = "x".repeat(66) + "'";
    assert_eq!(key_value_string(&q), q);
    let lost: String = "x".repeat(67) + "'";
    assert_eq!(key_value_string(&lost), "x".repeat(67));
    assert_eq!(key_value_string("it's"), "it's");
    assert_eq!(key_value_string("a\u{e9} b"), "a   b");
    assert_eq!(key_value_string("a\tb"), "a b");
    assert_eq!(key_value_string("ab\u{e9}"), "ab");
    assert_eq!(key_value_string(&"\u{e9}".repeat(40)), "");
    let wide: String = "\u{20ac}".repeat(22) + "xyz";
    assert_eq!(key_value_string(&wide), " ".repeat(66) + "xy");
    let wide2: String = "\u{20ac}".repeat(21) + "xyzw";
    assert_eq!(key_value_string(&wide2), " ".repeat(63) + "xyzw");
}

#[test]
fn column_names_read_back_as_written() {
    let mut f = FitsFile::create("n.fits".to_string()).unwrap();
    let cols = vec![
        ColumnDescription { name: "bar ".to_string(), data_type: "1J".to_string() },
        ColumnDescription { name: "it's".to_string(), data_type: "1E  ".to_string() },
    ];
    let h = f.create_table("T".to_string(), &cols).unwrap();
    assert_eq!(
        h.info,
        HduInfo::TableInfo {
            column_descriptions: vec![
                ColumnDescription { name: "bar".to_string(), data_type: "J".to_string() },
                ColumnDescription { name: "it's".to_string(), data_type: "E".to_string() },
            ],
            num_rows: 0
        }
    );
    assert_eq!(f.hdu("t").unwrap(), h);
}

//! Properties that hold across the operations of `FitsFile`, stated over the
//! spec functions that their contracts use.
use vstd::prelude::*;

use crate::error::{BAD_HDU_NUM, END_OF_FILE, READONLY_FILE};
use crate::fitsfile::{
    contents_status, empty_primary, naxes_of, spec_change_hdu, spec_create_image, spec_create_table, spec_fetch,
    spec_hdu, spec_reopen, FitsHduView, HduTarget,
};
use crate::model::{
    axes_status, first_match, first_unreadable, hdu_matches, hdu_status, hdu_wf, lemma_first_match,
    lemma_first_unreadable, lemma_readable_none_unreadable, name_is, new_table_status,
    readable_between, reported_type, table_status, upper_columns, valid_bitpix, written_columns,
    HandleView, HduDataView, HduView, MAX_AXES, MAX_COLUMNS, MAX_HDUS,
};
use crate::text::{
    card_value, fold_case, folded, glob, key_value, lemma_upper_tform_code, names_match, template_matches, tform_code,
    trim_blanks, upper_seq, value_bytes,
};
use crate::types::{spec_bitpix, ColumnDescriptionView, HduInfoView, ImageType, ANY_HDU, BINARY_TBL};

verus! {

/// An HDU whose EXTNAME or HDUNAME matches `name` taken as a template.
pub open spec fn named(h: HduView, name: Seq<char>) -> bool {
    name_is(h.extname, name) || name_is(h.hduname, name)
}

/// Selecting an HDU by a position inside the file, when every header up to
/// it can be read, succeeds, keeps the HDUs as they were, and makes that
/// position the current one, which is what `hdu_number` then reports.
pub proof fn law_select_by_number(s: HandleView, n: usize)
    requires
        s.wf(),
        n < s.hdus.len(),
        readable_between(s.hdus, 0, n + 1),
    ensures
        spec_change_hdu(s, HduTarget::Number(n)).1 is Ok,
        spec_change_hdu(s, HduTarget::Number(n)).0.hdus == s.hdus,
        spec_change_hdu(s, HduTarget::Number(n)).0.current == n,
{
    lemma_readable_none_unreadable(s.hdus, 0, n + 1);
}

/// Selecting an HDU by position fails with the status of the first header
/// on the way that cfitsio cannot read, and leaves the file as it was.
pub proof fn law_select_unreadable(s: HandleView, n: usize)
    requires
        s.wf(),
    ensures
        first_unreadable(s.hdus, 0, n + 1) matches Some(m) ==> spec_change_hdu(
            s,
            HduTarget::Number(n),
        ) == (s, Err::<(), i32>(hdu_status(s.hdus[m]))),
{
    lemma_first_unreadable(s.hdus, 0, n + 1);
}

/// Selecting an HDU by a position at or past the end of a file whose
/// headers can all be read fails with `END_OF_FILE` and leaves the file as
/// it was.
pub proof fn law_select_past_end(s: HandleView, n: usize)
    requires
        s.wf(),
        n >= s.hdus.len(),
        readable_between(s.hdus, 0, s.hdus.len() as int),
    ensures
        spec_change_hdu(s, HduTarget::Number(n)) == (s, Err::<(), i32>(END_OF_FILE)),
{
    lemma_readable_none_unreadable(s.hdus, 0, s.hdus.len() as int);
    crate::model::lemma_first_unreadable_cap(s.hdus, 0, s.hdus.len() as int, n + 1);
}

/// Selecting an HDU by name makes current the first HDU whose EXTNAME or
/// HDUNAME matches the name taken as a template, all HDUs before it being
/// readable; when no HDU matches before the end of the file or before the
/// first unreadable header, it fails with `BAD_HDU_NUM` and leaves the file
/// as it was.
pub proof fn law_select_by_name(s: HandleView, name: Seq<char>)
    requires
        s.wf(),
    ensures
        ({
            let (s2, r) = spec_change_hdu(s, HduTarget::Name(name));
            match r {
                Ok(_) => {
                    &&& s2.hdus == s.hdus
                    &&& s2.wf()
                    &&& named(s2.current_hdu(), name)
                    &&& readable_between(s.hdus, 0, s2.current)
                    &&& forall|j: int| 0 <= j < s2.current ==> !named(#[trigger] s.hdus[j], name)
                },
                Err(st) => {
                    &&& st == BAD_HDU_NUM
                    &&& s2 == s
                    &&& forall|j: int|
                        0 <= j < s.hdus.len() && readable_between(s.hdus, 0, j + 1) ==> !named(
                            #[trigger] s.hdus[j],
                            name,
                        )
                },
            }
        }),
{
    lemma_first_match(s.hdus, ANY_HDU, name, 0);
    assert forall|j: int| 0 <= j < s.hdus.len() implies hdu_matches(#[trigger] s.hdus[j], ANY_HDU, name)
        == named(s.hdus[j], name) by {}
}

/// Names that differ only in ASCII case select the same HDU.
pub proof fn law_select_name_ignores_case(s: HandleView, a: Seq<char>, b: Seq<char>)
    requires
        s.wf(),
        names_match(a, b),
    ensures
        spec_change_hdu(s, HduTarget::Name(a)) == spec_change_hdu(s, HduTarget::Name(b)),
{
    assert(folded(a) =~= folded(b));
    assert forall|v: Seq<char>| template_matches(a, v) == template_matches(b, v) by {}
    assert forall|i: int| 0 <= i < s.hdus.len() implies hdu_matches(#[trigger] s.hdus[i], ANY_HDU, a)
        == hdu_matches(s.hdus[i], ANY_HDU, b) by {
        if let Some(e) = s.hdus[i].extname {
            assert(template_matches(a, e) == template_matches(b, e));
        }
        if let Some(e) = s.hdus[i].hduname {
            assert(template_matches(a, e) == template_matches(b, e));
        }
    }
    lemma_same_first_match(s.hdus, a, b, 0);
}

/// Two names that every HDU matches alike have the same first match.
proof fn lemma_same_first_match(hdus: Seq<HduView>, a: Seq<char>, b: Seq<char>, i: int)
    requires
        0 <= i,
        forall|j: int| 0 <= j < hdus.len() ==> hdu_matches(#[trigger] hdus[j], ANY_HDU, a)
            == hdu_matches(hdus[j], ANY_HDU, b),
    ensures
        first_match(hdus, ANY_HDU, a, i) == first_match(hdus, ANY_HDU, b, i),
    decreases hdus.len() - i,
{
    if i < hdus.len() {
        lemma_same_first_match(hdus, a, b, i + 1);
    }
}

/// Asking for an HDU selects it exactly as `change_hdu` does, and on
/// success describes the HDU that is then current, as `fetch_hdu_info`
/// reports it.
pub proof fn law_hdu_is_select_then_describe(s: HandleView, t: HduTarget)
    requires
        s.wf(),
    ensures
        spec_hdu(s, t).0 == spec_change_hdu(s, t).0,
        spec_change_hdu(s, t).1 is Err ==> spec_hdu(s, t).1 == Err::<FitsHduView, i32>(
            spec_change_hdu(s, t).1->Err_0,
        ),
        spec_change_hdu(s, t).1 is Ok ==> {
            let s2 = spec_change_hdu(s, t).0;
            match spec_fetch(s2.current_hdu()) {
                Ok(info) => spec_hdu(s, t).1 == Ok::<FitsHduView, i32>(
                    FitsHduView { info, hdu_num: s2.current, extname: s2.current_hdu().extname },
                ),
                Err(e) => spec_hdu(s, t).1 == Err::<FitsHduView, i32>(e),
            }
        },
{
}

/// A failed selection, table creation or image creation leaves the file as
/// it was.
pub proof fn law_failures_change_nothing(
    s: HandleView,
    t: HduTarget,
    extname: Seq<char>,
    columns: Seq<ColumnDescriptionView>,
    data_type: ImageType,
    dims: Seq<usize>,
)
    requires
        s.wf(),
    ensures
        spec_change_hdu(s, t).1 is Err ==> spec_change_hdu(s, t).0 == s,
        spec_create_table(s, extname, columns).1 is Err ==> spec_create_table(s, extname, columns).0
            == s,
        spec_create_image(s, extname, data_type, dims).1 is Err ==> spec_create_image(
            s,
            extname,
            data_type,
            dims,
        ).0 == s,
{
}

/// A file opened read-only refuses to create tables and images, with
/// `READONLY_FILE`, and is left as it was.
pub proof fn law_read_only_refuses_writes(
    s: HandleView,
    extname: Seq<char>,
    columns: Seq<ColumnDescriptionView>,
    data_type: ImageType,
    dims: Seq<usize>,
)
    requires
        s.wf(),
        !s.writable,
    ensures
        spec_create_table(s, extname, columns) == (s, Err::<FitsHduView, i32>(READONLY_FILE)),
        spec_create_image(s, extname, data_type, dims) == (s, Err::<FitsHduView, i32>(READONLY_FILE)),
{
}

/// One call through a `FitsFile`, as its contract describes its effect on
/// the file.
pub enum FileOp {
    ChangeHdu(HduTarget),
    Hdu(HduTarget),
    CurrentHdu,
    FetchHduInfo,
    HduNumber,
    CreateTable(Seq<char>, Seq<ColumnDescriptionView>),
    CreateImage(Seq<char>, ImageType, Seq<usize>),
}

/// The file after one call.
pub open spec fn spec_step(s: HandleView, op: FileOp) -> HandleView {
    match op {
        FileOp::ChangeHdu(t) => spec_change_hdu(s, t).0,
        FileOp::Hdu(t) => spec_hdu(s, t).0,
        FileOp::CurrentHdu => s,
        FileOp::FetchHduInfo => s,
        FileOp::HduNumber => s,
        FileOp::CreateTable(extname, columns) => spec_create_table(s, extname, columns).0,
        FileOp::CreateImage(extname, data_type, dims) => spec_create_image(s, extname, data_type, dims).0,
    }
}

/// The file after a sequence of calls, made in order.
pub open spec fn spec_run(s: HandleView, ops: Seq<FileOp>) -> HandleView
    decreases ops.len(),
{
    if ops.len() == 0 {
        s
    } else {
        spec_run(spec_step(s, ops[0]), ops.drop_first())
    }
}

/// No sequence of calls through a file opened read-only changes its HDUs:
/// only the current position moves, and the file stays read-only and well
/// formed.
pub proof fn law_read_only_sequence_keeps_hdus(s: HandleView, ops: Seq<FileOp>)
    requires
        s.wf(),
        !s.writable,
    ensures
        spec_run(s, ops).hdus == s.hdus,
        !spec_run(s, ops).writable,
        spec_run(s, ops).wf(),
    decreases ops.len(),
{
    if ops.len() > 0 {
        let s1 = spec_step(s, ops[0]);
        match ops[0] {
            FileOp::ChangeHdu(t) => lemma_change_keeps(s, t),
            FileOp::Hdu(t) => lemma_change_keeps(s, t),
            _ => {},
        }
        law_read_only_sequence_keeps_hdus(s1, ops.drop_first());
    }
}

/// A selection keeps the HDUs and the access mode, and keeps the file well
/// formed.
proof fn lemma_change_keeps(s: HandleView, t: HduTarget)
    requires
        s.wf(),
    ensures
        spec_change_hdu(s, t).0.hdus == s.hdus,
        spec_change_hdu(s, t).0.writable == s.writable,
        spec_change_hdu(s, t).0.wf(),
{
    match t {
        HduTarget::Name(name) => {
            lemma_first_match(s.hdus, ANY_HDU, name, 0);
            if let Some(k) = first_match(s.hdus, ANY_HDU, name, 0) {
                assert forall|m: int| 0 <= m < k + 1 implies hdu_wf(#[trigger] s.hdus[m]) by {
                    if m < k {
                        assert(readable_between(s.hdus, 0, k));
                    }
                }
            }
        },
        HduTarget::Number(n) => {
            lemma_first_unreadable(s.hdus, 0, n + 1);
        },
    }
}

/// Appending a readable HDU to a file whose headers can all be read gives a
/// well-formed file whose new HDU is current.
proof fn lemma_append_keeps(s: HandleView, h: HduView)
    requires
        s.wf(),
        s.hdus.len() < MAX_HDUS,
        first_unreadable(s.hdus, 0, s.hdus.len() as int) is None,
        hdu_wf(h),
    ensures
        s.with_appended(h).wf(),
        s.with_appended(h).hdus[0] == s.hdus[0],
{
    let s2 = s.with_appended(h);
    lemma_first_unreadable(s.hdus, 0, s.hdus.len() as int);
    assert forall|m: int| 0 <= m < s2.current + 1 implies hdu_wf(#[trigger] s2.hdus[m]) by {
        if m < s.hdus.len() {
            assert(s2.hdus[m] == s.hdus[m]);
            assert(readable_between(s.hdus, 0, s.hdus.len() as int));
        }
    }
}

/// Every operation keeps the file well formed: at least one HDU and a
/// current HDU reached by reading every header up to it.
pub proof fn law_operations_keep_file_well_formed(
    s: HandleView,
    t: HduTarget,
    extname: Seq<char>,
    columns: Seq<ColumnDescriptionView>,
    data_type: ImageType,
    dims: Seq<usize>,
)
    requires
        s.wf(),
        s.hdus.len() < MAX_HDUS,
    ensures
        spec_change_hdu(s, t).0.wf(),
        spec_hdu(s, t).0.wf(),
        spec_create_table(s, extname, columns).0.wf(),
        spec_create_image(s, extname, data_type, dims).0.wf(),
{
    lemma_change_keeps(s, t);
    lemma_first_unreadable(s.hdus, 0, s.hdus.len() as int);
    if s.writable && first_unreadable(s.hdus, 0, s.hdus.len() as int) is None {
        if new_table_status(BINARY_TBL, 0, columns) == 0 {
            assert(hdu_wf(crate::fitsfile::new_table(extname, columns)));
            lemma_append_keeps(s, crate::fitsfile::new_table(extname, columns));
        }
        let bitpix = spec_bitpix(data_type);
        if crate::model::image_status(bitpix, naxes_of(dims)) == 0 {
            lemma_append_keeps(
                s,
                HduView {
                    data: crate::model::HduDataView::Image { bitpix, naxes: naxes_of(dims) },
                    extname: Some(key_value(extname)),
                    hduname: None,
                },
            );
        }
    }
}

/// Creating a table or an image keeps every HDU that was already there,
/// appends one HDU at the end, and makes it the current one.
pub proof fn law_create_appends(
    s: HandleView,
    extname: Seq<char>,
    columns: Seq<ColumnDescriptionView>,
    data_type: ImageType,
    dims: Seq<usize>,
)
    requires
        s.wf(),
    ensures
        spec_create_table(s, extname, columns).1 is Ok ==> {
            let s2 = spec_create_table(s, extname, columns).0;
            &&& s2.hdus.len() == s.hdus.len() + 1
            &&& s2.hdus.subrange(0, s.hdus.len() as int) == s.hdus
            &&& s2.current == s.hdus.len()
            &&& s2.writable == s.writable
        },
        spec_create_image(s, extname, data_type, dims).1 is Ok ==> {
            let s2 = spec_create_image(s, extname, data_type, dims).0;
            &&& s2.hdus.len() == s.hdus.len() + 1
            &&& s2.hdus.subrange(0, s.hdus.len() as int) == s.hdus
            &&& s2.current == s.hdus.len()
            &&& s2.writable == s.writable
        },
{
    let s2 = spec_create_table(s, extname, columns).0;
    if spec_create_table(s, extname, columns).1 is Ok {
        assert(s2.hdus.subrange(0, s.hdus.len() as int) =~= s.hdus);
    }
    let s3 = spec_create_image(s, extname, data_type, dims).0;
    if spec_create_image(s, extname, data_type, dims).1 is Ok {
        assert(s3.hdus.subrange(0, s.hdus.len() as int) =~= s.hdus);
    }
}

/// The columns that a binary table reports once created: each column's
/// name as a string keyword value reads back, and the data type code
/// cfitsio parses from its TFORM value.
pub open spec fn reported_columns(columns: Seq<ColumnDescriptionView>) -> Seq<ColumnDescriptionView> {
    columns.map_values(
        |c: ColumnDescriptionView|
            ColumnDescriptionView { name: key_value(c.name), data_type: reported_type(c.data_type) },
    )
}

/// On a writable file whose headers can all be read, a binary table with at
/// most 999 columns, each with a TFORM that names a data type and reads
/// back as written once upper-cased, is created with no rows; it reports
/// each column's name as it reads back with the data type code cfitsio
/// parses from its TFORM, and bears a non-empty name as it reads back.
/// When no HDU before it matches that name, selecting the name finds it.
pub proof fn law_created_table_found_by_name(
    s: HandleView,
    extname: Seq<char>,
    columns: Seq<ColumnDescriptionView>,
)
    requires
        s.wf(),
        s.writable,
        s.hdus.len() < MAX_HDUS,
        readable_between(s.hdus, 0, s.hdus.len() as int),
        columns.len() <= MAX_COLUMNS,
        forall|i: int| 0 <= i < columns.len() ==> tform_code(#[trigger] columns[i].data_type) is Some,
        forall|i: int|
            0 <= i < columns.len() ==> key_value(upper_seq(#[trigger] columns[i].data_type))
                == upper_seq(columns[i].data_type),
        extname.len() > 0,
    ensures
        ({
            let (s2, r) = spec_create_table(s, extname, columns);
            &&& r == Ok::<FitsHduView, i32>(
                FitsHduView {
                    info: HduInfoView::TableInfo { column_descriptions: reported_columns(columns), num_rows: 0 },
                    hdu_num: s.hdus.len() as int,
                    extname: Some(key_value(extname)),
                },
            )
            &&& (forall|j: int| 0 <= j < s.hdus.len() ==> !named(#[trigger] s.hdus[j], key_value(extname)))
                ==> spec_change_hdu(s2, HduTarget::Name(key_value(extname))) == (s2, Ok::<(), i32>(()))
        }),
{
    let up = upper_columns(columns);
    let wr = written_columns(columns);
    lemma_readable_none_unreadable(s.hdus, 0, s.hdus.len() as int);
    assert forall|i: int| 0 <= i < up.len() implies tform_code(#[trigger] up[i].data_type) is Some by {
        lemma_upper_tform_code(columns[i].data_type);
    }
    assert forall|i: int| 0 <= i < wr.len() implies tform_code(#[trigger] wr[i].data_type) is Some by {
        lemma_upper_tform_code(columns[i].data_type);
    }
    assert(table_status(BINARY_TBL, 0, up) == 0);
    assert(new_table_status(BINARY_TBL, 0, columns) == 0);
    let s2 = spec_create_table(s, extname, columns).0;
    let n = s.hdus.len() as int;
    let info = spec_fetch(s2.hdus[n]);
    assert(info is Ok);
    assert(info->Ok_0 == HduInfoView::TableInfo { column_descriptions: reported_columns(columns), num_rows: 0 }) by {
        let got = wr.map_values(
            |c: ColumnDescriptionView| ColumnDescriptionView { name: c.name, data_type: reported_type(c.data_type) },
        );
        assert forall|i: int| 0 <= i < columns.len() implies #[trigger] got[i] == reported_columns(columns)[i] by {
            lemma_upper_tform_code(columns[i].data_type);
        }
        assert(got =~= reported_columns(columns));
    }
    let name = key_value(extname);
    assert(template_matches(name, name));
    assert(hdu_wf(s2.hdus[n]));
    assert(hdu_matches(s2.hdus[n], ANY_HDU, name));
    if forall|j: int| 0 <= j < s.hdus.len() ==> !named(#[trigger] s.hdus[j], name) {
        assert forall|j: int| 0 <= j < n implies hdu_wf(#[trigger] s2.hdus[j]) && !hdu_matches(
            s2.hdus[j],
            ANY_HDU,
            name,
        ) by {
            assert(s2.hdus[j] == s.hdus[j]);
            assert(!named(s.hdus[j], name));
        }
        lemma_first_found(s2.hdus, name, n, 0);
    }
}

/// When every HDU before position `n` is readable and does not match, and
/// the HDU at `n` is readable and matches, the first match is `n`.
proof fn lemma_first_found(hdus: Seq<HduView>, name: Seq<char>, n: int, i: int)
    requires
        0 <= i <= n < hdus.len(),
        forall|j: int| 0 <= j < n ==> hdu_wf(#[trigger] hdus[j]) && !hdu_matches(hdus[j], ANY_HDU, name),
        hdu_wf(hdus[n]),
        hdu_matches(hdus[n], ANY_HDU, name),
    ensures
        first_match(hdus, ANY_HDU, name, i) == Some(n),
    decreases n - i,
{
    if i < n {
        lemma_first_found(hdus, name, n, i + 1);
    }
}

/// On a writable file whose headers can all be read, an image with at most
/// 999 axes, each no longer than a C `long` can hold, is created; it
/// reports exactly the requested axis lengths, bears the given name as it
/// reads back, and is the new last HDU.
pub proof fn law_created_image_shape(
    s: HandleView,
    extname: Seq<char>,
    data_type: ImageType,
    dims: Seq<usize>,
)
    requires
        s.wf(),
        s.writable,
        readable_between(s.hdus, 0, s.hdus.len() as int),
        dims.len() <= MAX_AXES,
        forall|i: int| 0 <= i < dims.len() ==> #[trigger] dims[i] <= i64::MAX,
    ensures
        spec_create_image(s, extname, data_type, dims).1 == Ok::<FitsHduView, i32>(
            FitsHduView {
                info: HduInfoView::ImageInfo { shape: dims },
                hdu_num: s.hdus.len() as int,
                extname: Some(key_value(extname)),
            },
        ),
{
    lemma_readable_none_unreadable(s.hdus, 0, s.hdus.len() as int);
    let naxes = naxes_of(dims);
    assert(valid_bitpix(spec_bitpix(data_type)));
    assert forall|i: int| 0 <= i < naxes.len() implies #[trigger] naxes[i] >= 0 by {
        assert(naxes[i] == dims[i] as i64);
    }
    assert(naxes.map_values(|x: i64| x as usize) =~= dims);
}

/// A file opened again starts at its first HDU, refuses writes, and
/// describes the HDU at every position exactly as the file it came from.
pub proof fn law_reopen_describes_alike(s: HandleView, n: usize)
    requires
        s.wf(),
        n < s.hdus.len(),
    ensures
        spec_reopen(s).wf(),
        spec_reopen(s).current == 0,
        !spec_reopen(s).writable,
        spec_hdu(spec_reopen(s), HduTarget::Number(n)).1 == spec_hdu(s, HduTarget::Number(n)).1,
{
}

/// Upper-casing a TFORM, as cfitsio does when it writes a table, does not
/// change the data type code it reports.
pub proof fn law_upper_case_keeps_type_code(tform: Seq<char>)
    ensures
        reported_type(upper_seq(tform)) == reported_type(tform),
{
    lemma_upper_tform_code(tform);
}

/// A letter that FITS defines as a binary table data type: logical, bit,
/// byte, 16-, 32- and 64-bit integer, character, 32- and 64-bit float,
/// 32- and 64-bit complex.
pub open spec fn fits_binary_letter(c: char) -> bool {
    c == 'L' || c == 'X' || c == 'B' || c == 'I' || c == 'J' || c == 'K' || c == 'A' || c == 'E'
        || c == 'D' || c == 'C' || c == 'M'
}

/// A TFORM value made of a repeat count (possibly empty) and one FITS
/// binary type letter.
pub open spec fn plain_tform(t: Seq<char>) -> bool {
    &&& t.len() >= 1
    &&& fits_binary_letter(t.last())
    &&& forall|j: int| 0 <= j < t.len() - 1 ==> '0' <= #[trigger] t[j] && t[j] <= '9'
}

/// A TFORM value made of a repeat count and a FITS binary type letter
/// names that type: its data type code is the letter.
pub proof fn law_tform_names_its_letter(t: Seq<char>)
    requires
        plain_tform(t),
    ensures
        tform_code(t) == Some(seq![t.last()]),
{
    let k = t.len() - 1;
    crate::text::lemma_leading_digits(t, k);
    assert(t.skip(k)[0] == t.last());
}

/// The type code reported for a plain TFORM value is its letter.
pub proof fn law_reported_type_of_plain_tform(t: Seq<char>)
    requires
        plain_tform(t),
    ensures
        reported_type(t) == seq![t.last()],
{
    law_tform_names_its_letter(t);
}

/// A string keyword value that a header card holds as it is: at most 68
/// printable ASCII characters, none of them a quote, not ending in a blank.
pub open spec fn plain_value(v: Seq<char>) -> bool {
    &&& v.len() <= 68
    &&& forall|j: int| 0 <= j < v.len() ==> ' ' <= #[trigger] v[j] && v[j] <= '~' && v[j] != '\''
    &&& (v.len() == 0 || v.last() != ' ')
}

/// The bytes of an ASCII string are its character codes.
proof fn lemma_value_bytes_ascii(v: Seq<char>)
    requires
        forall|j: int| 0 <= j < v.len() ==> (#[trigger] v[j] as u32) < 0x80,
    ensures
        value_bytes(v) == v.map_values(|c: char| c as u32),
    decreases v.len(),
{
    if v.len() > 0 {
        let w = v.drop_last();
        assert forall|j: int| 0 <= j < w.len() implies (#[trigger] w[j] as u32) < 0x80 by {
            assert(w[j] == v[j]);
        }
        lemma_value_bytes_ascii(w);
        assert(value_bytes(v) =~= v.map_values(|c: char| c as u32));
    }
}

/// Printable bytes other than quotes that fit in the places left are
/// copied to the card as they are.
proof fn lemma_card_value_plain(b: Seq<u32>, used: nat)
    requires
        used + b.len() <= 68,
        forall|j: int| 0 <= j < b.len() ==> 32 <= #[trigger] b[j] && b[j] <= 126 && b[j] != 39,
    ensures
        card_value(b, used) == b,
    decreases b.len(),
{
    if b.len() > 0 {
        let r = b.drop_first();
        assert forall|j: int| 0 <= j < r.len() implies 32 <= #[trigger] r[j] && r[j] <= 126 && r[j] != 39 by {
            assert(r[j] == b[j + 1]);
        }
        lemma_card_value_plain(r, used + 1);
        assert(card_value(b, used) =~= b);
    }
}

/// A plain string keyword value reads back exactly as it was written.
pub proof fn law_plain_value_reads_back(v: Seq<char>)
    requires
        plain_value(v),
    ensures
        key_value(v) == v,
{
    lemma_value_bytes_ascii(v);
    let b = v.map_values(|c: char| c as u32);
    assert forall|j: int| 0 <= j < b.len() implies 32 <= #[trigger] b[j] && b[j] <= 126 && b[j] != 39 by {
        assert(b[j] == v[j] as u32);
    }
    lemma_card_value_plain(b, 0);
    if b.len() > 0 {
        assert(b.last() == v.last() as u32);
    }
    assert(trim_blanks(b) == b);
    let back = b.map_values(|x: u32| x as char);
    assert forall|j: int| 0 <= j < v.len() implies #[trigger] back[j] == v[j] by {
        assert(b[j] == v[j] as u32);
    }
    assert(back =~= v);
}

/// On a writable file whose headers can all be read, a binary table whose
/// columns each have a TFORM made of a repeat count and a FITS binary type
/// letter is created with no rows, as the new last HDU; each column reports
/// its name as it reads back and, as data type, exactly its letter.
pub proof fn law_created_table_reports_type_letters(
    s: HandleView,
    extname: Seq<char>,
    columns: Seq<ColumnDescriptionView>,
)
    requires
        s.wf(),
        s.writable,
        s.hdus.len() < MAX_HDUS,
        readable_between(s.hdus, 0, s.hdus.len() as int),
        columns.len() <= MAX_COLUMNS,
        forall|i: int| 0 <= i < columns.len() ==> plain_tform(#[trigger] columns[i].data_type),
        forall|i: int| 0 <= i < columns.len() ==> (#[trigger] columns[i].data_type).len() <= 68,
        extname.len() > 0,
    ensures
        spec_create_table(s, extname, columns).1 matches Ok(v) && v.hdu_num == s.hdus.len() && (
        v.info matches HduInfoView::TableInfo { column_descriptions: cd, num_rows } && num_rows == 0
            && cd.len() == columns.len() && forall|i: int|
            0 <= i < columns.len() ==> (#[trigger] cd[i]).name == key_value(columns[i].name)
                && cd[i].data_type == seq![columns[i].data_type.last()]),
{
    assert forall|i: int| 0 <= i < columns.len() implies tform_code(#[trigger] columns[i].data_type) is Some
        && key_value(upper_seq(columns[i].data_type)) == upper_seq(columns[i].data_type) by {
        let t = columns[i].data_type;
        law_tform_names_its_letter(t);
        assert(upper_seq(t) =~= t);
        law_plain_value_reads_back(t);
    }
    law_created_table_found_by_name(s, extname, columns);
    assert forall|i: int| 0 <= i < columns.len() implies #[trigger] reported_columns(columns)[i].data_type
        == seq![columns[i].data_type.last()] by {
        law_tform_names_its_letter(columns[i].data_type);
    }
}

/// Describing a binary table reports its row count exactly (for every row
/// count a `usize` holds) and its columns in order, each with its name and
/// the data type code parsed from its TFORM.
pub proof fn law_table_reports_its_rows(h: HduView)
    requires
        h.data matches HduDataView::Table { ascii, num_rows, .. } && !ascii && 0 <= num_rows
            <= usize::MAX,
    ensures
        spec_fetch(h) matches Ok(HduInfoView::TableInfo { column_descriptions: cd, num_rows: r }) && (
        h.data matches HduDataView::Table { num_rows, columns, .. } && r as int == num_rows as int
            && cd.len() == columns.len() && forall|i: int|
            0 <= i < columns.len() ==> (#[trigger] cd[i]).name == columns[i].name && cd[i].data_type
                == reported_type(columns[i].data_type)),
{
}

/// Asking a file for the binary table at a position reached by reading
/// readable headers describes it with its exact row count.
pub proof fn law_hdu_reports_table_rows(s: HandleView, n: usize)
    requires
        s.wf(),
        n < s.hdus.len(),
        readable_between(s.hdus, 0, n + 1),
        s.hdus[n as int].data matches HduDataView::Table { ascii, num_rows, .. } && !ascii && num_rows
            <= usize::MAX,
    ensures
        spec_hdu(s, HduTarget::Number(n)).1 matches Ok(v) && v.hdu_num == n && (
        v.info matches HduInfoView::TableInfo { num_rows: r, .. } && (s.hdus[n as int].data matches HduDataView::Table {
            num_rows, ..
        } && r as int == num_rows as int)),
{
    law_select_by_number(s, n);
    assert(hdu_wf(s.hdus[n as int]));
    law_table_reports_its_rows(s.hdus[n as int]);
}

/// A template holding none of the wildcards `*`, `?` and `#`.
pub open spec fn no_wildcards(t: Seq<char>) -> bool {
    forall|j: int| 0 <= j < t.len() ==> #[trigger] t[j] != '*' && t[j] != '?' && t[j] != '#'
}

/// Dropping trailing blanks keeps a prefix of the sequence.
proof fn lemma_trim_prefix(b: Seq<u32>)
    ensures
        trim_blanks(b).len() <= b.len(),
        forall|j: int| 0 <= j < trim_blanks(b).len() ==> #[trigger] trim_blanks(b)[j] == b[j],
    decreases b.len(),
{
    if b.len() > 0 && b.last() == 32 {
        lemma_trim_prefix(b.drop_last());
    }
}

/// A template without wildcard codes matches only itself.
proof fn lemma_glob_plain(t: Seq<u32>, v: Seq<u32>)
    requires
        forall|j: int| 0 <= j < t.len() ==> #[trigger] t[j] != 42 && t[j] != 63 && t[j] != 35,
        glob(t, v),
    ensures
        t == v,
    decreases t.len(),
{
    if t.len() > 0 {
        let r = t.drop_first();
        assert forall|j: int| 0 <= j < r.len() implies #[trigger] r[j] != 42 && r[j] != 63 && r[j] != 35 by {
            assert(r[j] == t[j + 1]);
        }
        assert(v.len() > 0);
        assert(t[0] == v[0]);
        lemma_glob_plain(r, v.drop_first());
        assert(r == v.drop_first());
        assert forall|j: int| 0 <= j < t.len() implies #[trigger] t[j] == v[j] by {
            if j > 0 {
                assert(t[j] == r[j - 1]);
                assert(v[j] == v.drop_first()[j - 1]);
            }
        }
    }
    assert(t =~= v);
}

/// A character other than `*`, `?` and `#` folds to a code that is not a
/// wildcard code.
proof fn lemma_fold_not_wildcard(c: char)
    requires
        c != '*' && c != '?' && c != '#',
    ensures
        fold_case(c) != 42 && fold_case(c) != 63 && fold_case(c) != 35,
{
    assert('a' <= c && c <= 'z' ==> 97 <= (c as u32) && (c as u32) <= 122);
}

/// A name matches a template without wildcards exactly when the two are
/// equal once ASCII case is folded and trailing blanks are dropped.
pub proof fn law_plain_template_is_equality(t: Seq<char>, name: Seq<char>)
    requires
        no_wildcards(t),
    ensures
        template_matches(t, name) <==> trim_blanks(folded(t)) == trim_blanks(folded(name)),
{
    let ft = folded(t);
    let tt = trim_blanks(ft);
    lemma_trim_prefix(ft);
    assert forall|j: int| 0 <= j < tt.len() implies #[trigger] tt[j] != 42 && tt[j] != 63 && tt[j] != 35 by {
        assert(tt[j] == ft[j]);
        assert(ft[j] == fold_case(t[j]));
        lemma_fold_not_wildcard(t[j]);
    }
    if glob(tt, trim_blanks(folded(name))) {
        lemma_glob_plain(tt, trim_blanks(folded(name)));
    }
}

/// Selecting by a name without wildcards only ever makes current an HDU
/// whose EXTNAME or HDUNAME equals that name once ASCII case is folded and
/// trailing blanks are dropped.
pub proof fn law_select_plain_name(s: HandleView, name: Seq<char>)
    requires
        s.wf(),
        no_wildcards(name),
    ensures
        spec_change_hdu(s, HduTarget::Name(name)).1 is Ok ==> {
            let h = spec_change_hdu(s, HduTarget::Name(name)).0.current_hdu();
            ||| h.extname matches Some(e) && trim_blanks(folded(e)) == trim_blanks(folded(name))
            ||| h.hduname matches Some(e) && trim_blanks(folded(e)) == trim_blanks(folded(name))
        },
{
    lemma_first_match(s.hdus, ANY_HDU, name, 0);
    if let Some(k) = first_match(s.hdus, ANY_HDU, name, 0) {
        let h = s.hdus[k];
        if let Some(e) = h.extname {
            law_plain_template_is_equality(name, e);
        }
        if let Some(e) = h.hduname {
            law_plain_template_is_equality(name, e);
        }
    }
}

/// A BITPIX value that FITS defines: 8-, 16-, 32- and 64-bit integers and
/// 32- and 64-bit floats.
pub open spec fn fits_bitpix(b: i32) -> bool {
    b == 8 || b == 16 || b == 32 || b == 64 || b == -32 || b == -64
}

/// HDUs whose primary is an image with a FITS BITPIX and at most 999 axes,
/// none negative, open: the status is zero, and so is that of the primary
/// header.  For any image primary, opening gives the status of its header.
pub proof fn law_image_primary_opens(hdus: Seq<HduView>)
    requires
        1 <= hdus.len() <= MAX_HDUS,
        hdus[0].data is Image,
    ensures
        contents_status(hdus) == hdu_status(hdus[0]),
        (hdus[0].data matches HduDataView::Image { bitpix, naxes } && fits_bitpix(bitpix) && naxes.len()
            <= 999 && forall|i: int| 0 <= i < naxes.len() ==> #[trigger] naxes[i] >= 0) ==> contents_status(hdus)
            == 0 && hdu_wf(hdus[0]),
{
}

/// A new file holds one HDU: an 8-bit image with no axes and neither
/// EXTNAME nor HDUNAME.  It is described as an image with no axes and no
/// name, and no name selects any of its HDUs.
pub proof fn law_new_file_holds_an_unnamed_empty_image(name: Seq<char>)
    ensures
        ({
            let s = HandleView { hdus: seq![empty_primary()], current: 0, writable: true };
            &&& s.hdus.len() == 1
            &&& s.hdus[0].extname is None
            &&& s.hdus[0].hduname is None
            &&& s.hdus[0].data == (HduDataView::Image { bitpix: 8, naxes: Seq::empty() })
            &&& spec_hdu(s, HduTarget::Number(0)).1 == Ok::<FitsHduView, i32>(
                FitsHduView { info: HduInfoView::ImageInfo { shape: Seq::empty() }, hdu_num: 0, extname: None },
            )
            &&& spec_change_hdu(s, HduTarget::Name(name)) == (s, Err::<(), i32>(BAD_HDU_NUM))
        }),
{
    let s = HandleView { hdus: seq![empty_primary()], current: 0, writable: true };
    assert(hdu_wf(s.hdus[0]));
    lemma_readable_none_unreadable(s.hdus, 0, 1);
    let shape = Seq::<i64>::empty().map_values(|x: i64| x as usize);
    assert(shape =~= Seq::<usize>::empty());
    assert(first_match(s.hdus, ANY_HDU, name, 1) is None);
}

/// A repeat count: a run of ASCII digits, possibly empty.
pub open spec fn repeat_count(d: Seq<char>) -> bool {
    forall|j: int| 0 <= j < d.len() ==> '0' <= #[trigger] d[j] && d[j] <= '9'
}

/// The data type code of a TFORM value depends only on what follows the
/// repeat count: a FITS binary type letter, in either case, gives that
/// letter in upper case whatever follows it (`20A10` gives `A`), and `P`
/// or `Q` followed by a type letter gives `P` and that letter (`1PJ(100)`
/// and `1QJ(5)` give `PJ`).
pub proof fn law_tform_code_after_repeat_count(d: Seq<char>, c: char, e: char, rest: Seq<char>)
    requires
        repeat_count(d),
    ensures
        fits_binary_letter(c) ==> tform_code(d + seq![c] + rest) == Some(seq![c]),
        ('a' <= c && c <= 'z' && fits_binary_letter(((c as u32) - 32) as char)) ==> tform_code(
            d + seq![c] + rest,
        ) == Some(seq![((c as u32) - 32) as char]),
        ((c == 'P' || c == 'Q') && fits_binary_letter(e)) ==> tform_code(d + seq![c, e] + rest) == Some(
            seq!['P', e],
        ),
{
    let t1 = d + seq![c] + rest;
    let k = d.len() as int;
    if fits_binary_letter(c) || ('a' <= c && c <= 'z') {
        assert(t1[k] == c);
        assert forall|j: int| 0 <= j < k implies crate::text::is_digit(#[trigger] t1[j]) by {
            assert(t1[j] == d[j]);
        }
        crate::text::lemma_leading_digits(t1, k);
        assert(t1.skip(k)[0] == c);
    }
    let t2 = d + seq![c, e] + rest;
    if (c == 'P' || c == 'Q') && fits_binary_letter(e) {
        assert(t2[k] == c);
        assert forall|j: int| 0 <= j < k implies crate::text::is_digit(#[trigger] t2[j]) by {
            assert(t2[j] == d[j]);
        }
        crate::text::lemma_leading_digits(t2, k);
        assert(t2.skip(k)[0] == c);
        assert(t2.skip(k)[1] == e);
    }
}

/// Describing an image reports its axis lengths, in order.
pub proof fn law_image_reports_its_axes(h: HduView)
    requires
        h.data matches HduDataView::Image { naxes, .. } && forall|i: int|
            0 <= i < naxes.len() ==> 0 <= #[trigger] naxes[i] <= usize::MAX,
    ensures
        spec_fetch(h) matches Ok(HduInfoView::ImageInfo { shape }) && (
        h.data matches HduDataView::Image { naxes, .. } && shape.len() == naxes.len() && forall|i: int|
            0 <= i < naxes.len() ==> #[trigger] shape[i] as int == naxes[i] as int),
{
}

/// Asking a file for the image at a position reached by reading readable
/// headers describes it at that position with its axis lengths (each no
/// longer than a `usize` holds) and its EXTNAME.
pub proof fn law_hdu_reports_image_axes(s: HandleView, n: usize)
    requires
        s.wf(),
        n < s.hdus.len(),
        readable_between(s.hdus, 0, n + 1),
        s.hdus[n as int].data matches HduDataView::Image { naxes, .. } && forall|i: int|
            0 <= i < naxes.len() ==> #[trigger] naxes[i] <= usize::MAX,
    ensures
        spec_hdu(s, HduTarget::Number(n)).1 matches Ok(v) && v.hdu_num == n && v.extname
            == s.hdus[n as int].extname && (v.info matches HduInfoView::ImageInfo { shape } && (
        s.hdus[n as int].data matches HduDataView::Image { naxes, .. } && shape.len() == naxes.len()
            && forall|i: int| 0 <= i < naxes.len() ==> #[trigger] shape[i] as int == naxes[i] as int)),
{
    law_select_by_number(s, n);
    let h = s.hdus[n as int];
    assert(hdu_wf(h));
    if let HduDataView::Image { naxes, .. } = h.data {
        assert forall|i: int| 0 <= i < naxes.len() implies 0 <= #[trigger] naxes[i] by {
            if naxes[i] < 0 {
                assert(axes_status(naxes) != 0);
            }
        }
    }
    law_image_reports_its_axes(h);
}

/// Printable bytes other than quotes fill the places left on a card: the
/// card holds as many as fit.
proof fn lemma_card_value_fills(b: Seq<u32>, used: nat)
    requires
        used <= 68,
        used + b.len() >= 68,
        forall|j: int| 0 <= j < b.len() ==> 32 <= #[trigger] b[j] && b[j] <= 126 && b[j] != 39,
    ensures
        card_value(b, used) == b.take(68 - used),
    decreases b.len(),
{
    if used < 68 {
        let r = b.drop_first();
        assert forall|j: int| 0 <= j < r.len() implies 32 <= #[trigger] r[j] && r[j] <= 126 && r[j] != 39 by {
            assert(r[j] == b[j + 1]);
        }
        lemma_card_value_fills(r, used + 1);
        assert(card_value(b, used) =~= b.take(68 - used));
    } else {
        assert(b.take(0) =~= Seq::<u32>::empty());
    }
}

/// A value of printable ASCII characters without quotes, longer than a
/// card holds, reads back as its first 68 characters (when the last of
/// them is not a blank).
pub proof fn law_long_value_is_cut_to_a_card(v: Seq<char>)
    requires
        v.len() > 68,
        forall|j: int| 0 <= j < v.len() ==> ' ' <= #[trigger] v[j] && v[j] <= '~' && v[j] != '\'',
        v[67] != ' ',
    ensures
        key_value(v) == v.take(68),
{
    lemma_value_bytes_ascii(v);
    let b = v.map_values(|c: char| c as u32);
    assert forall|j: int| 0 <= j < b.len() implies 32 <= #[trigger] b[j] && b[j] <= 126 && b[j] != 39 by {
        assert(b[j] == v[j] as u32);
    }
    lemma_card_value_fills(b, 0);
    let cut = b.take(68);
    assert(cut.last() == v[67] as u32);
    assert(trim_blanks(cut) == cut);
    let back = cut.map_values(|x: u32| x as char);
    assert forall|j: int| 0 <= j < 68 implies #[trigger] back[j] == v[j] by {
        assert(cut[j] == v[j] as u32);
    }
    assert(back =~= v.take(68));
}

/// A binary table with a non-negative row count and at most 999 columns,
/// each with a TFORM made of a repeat count and a FITS binary type letter,
/// has a header cfitsio can read, so a file can move to it.
pub proof fn law_plain_table_is_readable(h: HduView)
    requires
        h.data matches HduDataView::Table { ascii, num_rows, columns } && !ascii && num_rows >= 0
            && columns.len() <= 999 && forall|i: int|
            0 <= i < columns.len() ==> plain_tform(#[trigger] columns[i].data_type),
    ensures
        hdu_wf(h),
{
    if let HduDataView::Table { columns, .. } = h.data {
        assert forall|i: int| 0 <= i < columns.len() implies tform_code(#[trigger] columns[i].data_type) is Some by {
            law_tform_names_its_letter(columns[i].data_type);
        }
    }
}

} // verus!

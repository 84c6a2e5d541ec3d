//! The state that cfitsio keeps for an open FITS file, held as plain
//! values: the list of HDUs with what the library reads of each (the
//! image axes, the table columns and rows, the EXTNAME and HDUNAME
//! keywords, or the status with which cfitsio fails to read the header),
//! the current HDU and whether the file was opened for writing.  Each
//! method of `FitsHandle` is one cfitsio routine that the library calls,
//! with the effect that routine has on this state.
use vstd::prelude::*;
use vstd::string::*;

use crate::error::{
    BAD_BITPIX, BAD_HDU_NUM, BAD_NAXES, BAD_NAXIS, BAD_TFIELDS, BAD_TFORM, END_OF_FILE,
    HEADER_NOT_EMPTY, NEG_ROWS, NOT_BTABLE, NOT_TABLE, READONLY_FILE,
};
use crate::text::{
    key_value, key_value_string, parse_tform, template_match, template_matches, tform_code,
    to_upper_string, upper_seq,
};
use crate::types::{
    columns_view, duplicate_columns, ColumnDescription, ColumnDescriptionView, ANY_HDU, ASCII_TBL,
    BINARY_TBL, IMAGE_HDU,
};

verus! {

/// The largest number of axes a FITS image may have (NAXIS).
pub const MAX_AXES: usize = 999;

/// The largest number of columns a FITS table may have (TFIELDS).
pub const MAX_COLUMNS: usize = 999;

/// The data part of an HDU: an image with its BITPIX and axis lengths; an
/// ASCII or binary table with its rows and its columns (TTYPEn, TFORMn);
/// or a header that cfitsio fails to read, with the status it reports.
#[derive(Debug)]
pub enum HduData {
    Image { bitpix: i32, naxes: Vec<i64> },
    Table { ascii: bool, num_rows: i64, columns: Vec<ColumnDescription> },
    Unreadable { status: i32 },
}

/// One HDU of a FITS file: its data and the values of its EXTNAME and
/// HDUNAME keywords.
#[derive(Debug)]
pub struct Hdu {
    pub data: HduData,
    pub extname: Option<String>,
    pub hduname: Option<String>,
}

/// `HduData` as mathematical values.
pub enum HduDataView {
    Image { bitpix: i32, naxes: Seq<i64> },
    Table { ascii: bool, num_rows: i64, columns: Seq<ColumnDescriptionView> },
    Unreadable { status: i32 },
}

/// `Hdu` as mathematical values.
pub struct HduView {
    pub data: HduDataView,
    pub extname: Option<Seq<char>>,
    pub hduname: Option<Seq<char>>,
}

/// The view of an optional string.
pub open spec fn opt_view(o: Option<String>) -> Option<Seq<char>> {
    match o {
        Some(s) => Some(s@),
        None => None,
    }
}

impl View for HduData {
    type V = HduDataView;

    open spec fn view(&self) -> HduDataView {
        match self {
            HduData::Image { bitpix, naxes } => HduDataView::Image { bitpix: *bitpix, naxes: naxes@ },
            HduData::Table { ascii, num_rows, columns } => HduDataView::Table {
                ascii: *ascii,
                num_rows: *num_rows,
                columns: columns_view(columns@),
            },
            HduData::Unreadable { status } => HduDataView::Unreadable { status: *status },
        }
    }
}

impl View for Hdu {
    type V = HduView;

    open spec fn view(&self) -> HduView {
        HduView { data: self.data@, extname: opt_view(self.extname), hduname: opt_view(self.hduname) }
    }
}

/// The views of a sequence of HDUs.
pub open spec fn hdus_view(hdus: Seq<Hdu>) -> Seq<HduView> {
    hdus.map_values(|h: Hdu| h@)
}

/// The cfitsio type code of an HDU (`ANY_HDU` for a header that cannot be
/// read).
pub open spec fn spec_hdu_type(h: HduView) -> i32 {
    match h.data {
        HduDataView::Image { .. } => IMAGE_HDU,
        HduDataView::Table { ascii, .. } => if ascii {
            ASCII_TBL
        } else {
            BINARY_TBL
        },
        HduDataView::Unreadable { .. } => ANY_HDU,
    }
}

/// The BITPIX values that cfitsio accepts for an image.
pub open spec fn valid_bitpix(bitpix: i32) -> bool {
    bitpix == 8 || bitpix == 16 || bitpix == 32 || bitpix == 64 || bitpix == -32 || bitpix == -64
}

/// The status cfitsio reports for image axes: at most 999 axes, each of
/// non-negative length.
pub open spec fn axes_status(naxes: Seq<i64>) -> i32 {
    if naxes.len() > MAX_AXES {
        BAD_NAXIS
    } else if exists|i: int| 0 <= i < naxes.len() && naxes[i] < 0 {
        BAD_NAXES
    } else {
        0
    }
}

/// The status cfitsio reports for an image with these BITPIX and axis
/// lengths, or zero when it accepts them.
pub open spec fn image_status(bitpix: i32, naxes: Seq<i64>) -> i32 {
    if !valid_bitpix(bitpix) {
        BAD_BITPIX
    } else {
        axes_status(naxes)
    }
}

/// The status cfitsio reports for a table with these rows and columns, or
/// zero when it accepts them: at most 999 columns, a non-negative row
/// count, and, in a binary table, a TFORM that names a data type in every
/// column.
pub open spec fn table_data_status(ascii: bool, num_rows: i64, columns: Seq<ColumnDescriptionView>) -> i32 {
    if columns.len() > MAX_COLUMNS {
        BAD_TFIELDS
    } else if num_rows < 0 {
        NEG_ROWS
    } else if !ascii && exists|i: int| 0 <= i < columns.len() && tform_code(columns[i].data_type) is None {
        BAD_TFORM
    } else {
        0
    }
}

/// The status cfitsio reports when it reads the header of an HDU, or zero
/// when it can.
pub open spec fn hdu_status(h: HduView) -> i32 {
    match h.data {
        HduDataView::Image { bitpix, naxes } => image_status(bitpix, naxes),
        HduDataView::Table { ascii, num_rows, columns } => table_data_status(ascii, num_rows, columns),
        HduDataView::Unreadable { status } => if status == 0 {
            END_OF_FILE
        } else {
            status
        },
    }
}

/// An HDU whose header cfitsio can read.
pub open spec fn hdu_wf(h: HduView) -> bool {
    hdu_status(h) == 0
}

/// The status cfitsio reports for a new table of this type, row count and
/// columns, or zero when it accepts them.
pub open spec fn table_status(tbltype: i32, naxis2: i64, columns: Seq<ColumnDescriptionView>) -> i32 {
    if tbltype != ASCII_TBL && tbltype != BINARY_TBL {
        NOT_TABLE
    } else {
        table_data_status(tbltype == ASCII_TBL, naxis2, columns)
    }
}

/// The columns of a new table as cfitsio writes them: each TFORM value
/// upper-cased.
pub open spec fn upper_columns(columns: Seq<ColumnDescriptionView>) -> Seq<ColumnDescriptionView> {
    columns.map_values(
        |c: ColumnDescriptionView| ColumnDescriptionView { name: c.name, data_type: upper_seq(c.data_type) },
    )
}

/// The columns of a new table as they read back once cfitsio has written
/// them: each name, and each upper-cased TFORM, as a string keyword value
/// reads back.
pub open spec fn written_columns(columns: Seq<ColumnDescriptionView>) -> Seq<ColumnDescriptionView> {
    columns.map_values(
        |c: ColumnDescriptionView|
            ColumnDescriptionView { name: key_value(c.name), data_type: key_value(upper_seq(c.data_type)) },
    )
}

/// The status cfitsio reports for a new table: the header it is asked to
/// write (TFORM values upper-cased) must be valid, and so must the header
/// as it reads back once written.
pub open spec fn new_table_status(tbltype: i32, naxis2: i64, columns: Seq<ColumnDescriptionView>) -> i32 {
    if table_status(tbltype, naxis2, upper_columns(columns)) != 0 {
        table_status(tbltype, naxis2, upper_columns(columns))
    } else {
        table_data_status(tbltype == ASCII_TBL, naxis2, written_columns(columns))
    }
}

/// The position of the first HDU at or after `i`, and before `n`, whose
/// header cfitsio cannot read: cfitsio cannot move past it.
pub open spec fn first_unreadable(hdus: Seq<HduView>, i: int, n: int) -> Option<int>
    decreases hdus.len() - i,
{
    if i < 0 || i >= n || i >= hdus.len() {
        None
    } else if !hdu_wf(hdus[i]) {
        Some(i)
    } else {
        first_unreadable(hdus, i + 1, n)
    }
}

/// The status of the first unreadable header before position `n`, or zero
/// when there is none.
pub open spec fn unreadable_status(hdus: Seq<HduView>, n: int) -> i32 {
    match first_unreadable(hdus, 0, n) {
        Some(m) => hdu_status(hdus[m]),
        None => 0,
    }
}

/// A zero `unreadable_status` means every HDU from `i` to `n` is readable,
/// and a non-zero one is the status of an unreadable header.
pub proof fn lemma_first_unreadable(hdus: Seq<HduView>, i: int, n: int)
    requires
        0 <= i,
    ensures
        first_unreadable(hdus, i, n) is None ==> readable_between(hdus, i, if n < hdus.len() {
            n
        } else {
            hdus.len() as int
        }),
        first_unreadable(hdus, i, n) matches Some(m) ==> i <= m < n && m < hdus.len() && !hdu_wf(
            hdus[m],
        ) && readable_between(hdus, i, m),
    decreases hdus.len() - i,
{
    if i < n && i < hdus.len() && hdu_wf(hdus[i]) {
        lemma_first_unreadable(hdus, i + 1, n);
        let top = if n < hdus.len() {
            n
        } else {
            hdus.len() as int
        };
        if first_unreadable(hdus, i + 1, n) is None {
            assert forall|m: int| i <= m < top implies hdu_wf(#[trigger] hdus[m]) by {
                if m > i {
                    assert(readable_between(hdus, i + 1, top));
                }
            }
        } else {
            let m0 = first_unreadable(hdus, i + 1, n)->0;
            assert forall|m: int| i <= m < m0 implies hdu_wf(#[trigger] hdus[m]) by {
                if m > i {
                    assert(readable_between(hdus, i + 1, m0));
                }
            }
        }
    }
}

/// When every header from `i` to `n` can be read, none is unreadable.
pub proof fn lemma_readable_none_unreadable(hdus: Seq<HduView>, i: int, n: int)
    requires
        0 <= i,
        readable_between(hdus, i, n),
    ensures
        first_unreadable(hdus, i, n) is None,
    decreases hdus.len() - i,
{
    if i < n && i < hdus.len() {
        lemma_readable_none_unreadable(hdus, i + 1, n);
    }
}

/// Positions past the last HDU all give the same first unreadable header.
pub proof fn lemma_first_unreadable_cap(hdus: Seq<HduView>, i: int, n1: int, n2: int)
    requires
        0 <= i,
        n1 == n2 || (n1 >= hdus.len() && n2 >= hdus.len()),
    ensures
        first_unreadable(hdus, i, n1) == first_unreadable(hdus, i, n2),
    decreases hdus.len() - i,
{
    if i < hdus.len() {
        lemma_first_unreadable_cap(hdus, i + 1, n1, n2);
    }
}

/// The data type that cfitsio reports for a binary table column: the code
/// parsed from its TFORM value.
pub open spec fn reported_type(tform: Seq<char>) -> Seq<char> {
    match tform_code(tform) {
        Some(code) => code,
        None => Seq::empty(),
    }
}

/// An optional keyword value that matches `name` taken as a template (see
/// `template_matches`).
pub open spec fn name_is(value: Option<Seq<char>>, name: Seq<char>) -> bool {
    value matches Some(v) && template_matches(name, v)
}

/// Whether an HDU has the given type (or the type is `ANY_HDU`) and an
/// EXTNAME or an HDUNAME that matches `name` taken as a template.
pub open spec fn hdu_matches(h: HduView, hdu_type: i32, name: Seq<char>) -> bool {
    &&& (hdu_type == ANY_HDU || spec_hdu_type(h) == hdu_type)
    &&& (name_is(h.extname, name) || name_is(h.hduname, name))
}

/// The position, at or after `i`, of the first HDU that matches, reading
/// the HDUs in order: the search stops at the first header cfitsio cannot
/// read.
pub open spec fn first_match(hdus: Seq<HduView>, hdu_type: i32, name: Seq<char>, i: int) -> Option<int>
    decreases hdus.len() - i,
{
    if i < 0 || i >= hdus.len() {
        None
    } else if !hdu_wf(hdus[i]) {
        None
    } else if hdu_matches(hdus[i], hdu_type, name) {
        Some(i)
    } else {
        first_match(hdus, hdu_type, name, i + 1)
    }
}

/// Every HDU at a position in `[i, j)` can be read.
pub open spec fn readable_between(hdus: Seq<HduView>, i: int, j: int) -> bool {
    forall|m: int| i <= m < j ==> hdu_wf(#[trigger] hdus[m])
}

/// What `first_match` gives: a readable, matching position, with only
/// readable, non-matching HDUs before it (from `i` on); or none, when no
/// HDU from `i` on matches before the first unreadable one.
pub proof fn lemma_first_match(hdus: Seq<HduView>, hdu_type: i32, name: Seq<char>, i: int)
    requires
        0 <= i,
    ensures
        first_match(hdus, hdu_type, name, i) matches Some(k) ==> {
            &&& i <= k < hdus.len()
            &&& hdu_wf(hdus[k])
            &&& hdu_matches(hdus[k], hdu_type, name)
            &&& readable_between(hdus, i, k)
            &&& forall|j: int| i <= j < k ==> !hdu_matches(#[trigger] hdus[j], hdu_type, name)
        },
        first_match(hdus, hdu_type, name, i) is None ==> forall|j: int|
            i <= j < hdus.len() && readable_between(hdus, i, j + 1) ==> !hdu_matches(
                #[trigger] hdus[j],
                hdu_type,
                name,
            ),
    decreases hdus.len() - i,
{
    if i < hdus.len() && hdu_wf(hdus[i]) && !hdu_matches(hdus[i], hdu_type, name) {
        lemma_first_match(hdus, hdu_type, name, i + 1);
        if let Some(k) = first_match(hdus, hdu_type, name, i) {
            assert forall|m: int| i <= m < k implies hdu_wf(#[trigger] hdus[m]) by {
                if m > i {
                    assert(readable_between(hdus, i + 1, k));
                }
            }
        } else {
            assert forall|j: int|
                i <= j < hdus.len() && readable_between(hdus, i, j + 1) implies !hdu_matches(
                #[trigger] hdus[j],
                hdu_type,
                name,
            ) by {
                if j > i {
                    assert(readable_between(hdus, i + 1, j + 1));
                }
            }
        }
    }
}

/// The most HDUs a file can hold: HDU numbers are C ints.
pub const MAX_HDUS: usize = 0x7fff_fffe;

/// Copies a vector of axis lengths.
fn duplicate_naxes(v: &Vec<i64>) -> (r: Vec<i64>)
    ensures
        r@ == v@,
{
    let r = v.clone();
    assert(r@ =~= v@);
    r
}

impl HduData {
    /// A copy with the same view.
    pub fn duplicate(&self) -> (r: HduData)
        ensures
            r@ == self@,
    {
        match self {
            HduData::Image { bitpix, naxes } => HduData::Image {
                bitpix: *bitpix,
                naxes: duplicate_naxes(naxes),
            },
            HduData::Table { ascii, num_rows, columns } => HduData::Table {
                ascii: *ascii,
                num_rows: *num_rows,
                columns: duplicate_columns(columns),
            },
            HduData::Unreadable { status } => HduData::Unreadable { status: *status },
        }
    }
}

/// Copies an optional string.
pub fn duplicate_opt(o: &Option<String>) -> (r: Option<String>)
    ensures
        opt_view(r) == opt_view(*o),
{
    match o {
        Some(s) => Some(s.clone()),
        None => None,
    }
}

impl Hdu {
    /// A copy with the same view.
    pub fn duplicate(&self) -> (r: Hdu)
        ensures
            r@ == self@,
    {
        Hdu {
            data: self.data.duplicate(),
            extname: duplicate_opt(&self.extname),
            hduname: duplicate_opt(&self.hduname),
        }
    }
}

/// The state of an open FITS file as cfitsio keeps it.
#[derive(Debug)]
pub struct FitsHandle {
    hdus: Vec<Hdu>,
    current: usize,
    writable: bool,
}

/// `FitsHandle` as mathematical values: the HDUs, the position of the
/// current one (counted from zero) and whether writes are allowed.
pub struct HandleView {
    pub hdus: Seq<HduView>,
    pub current: int,
    pub writable: bool,
}

impl HandleView {
    /// A file with at least one HDU and a current HDU among them, reached
    /// by cfitsio: every header up to the current one can be read.
    pub open spec fn wf(self) -> bool {
        &&& 1 <= self.hdus.len() <= MAX_HDUS
        &&& 0 <= self.current < self.hdus.len()
        &&& readable_between(self.hdus, 0, self.current + 1)
    }

    /// The current HDU.
    pub open spec fn current_hdu(self) -> HduView {
        self.hdus[self.current]
    }

    /// The same file with another current HDU.
    pub open spec fn with_current(self, i: int) -> HandleView {
        HandleView { current: i, ..self }
    }

    /// The file with an HDU appended at its end and made current.
    pub open spec fn with_appended(self, h: HduView) -> HandleView {
        HandleView { hdus: self.hdus.push(h), current: self.hdus.len() as int, writable: self.writable }
    }
}

impl View for FitsHandle {
    type V = HandleView;

    closed spec fn view(&self) -> HandleView {
        HandleView { hdus: hdus_view(self.hdus@), current: self.current as int, writable: self.writable }
    }
}

impl FitsHandle {
    /// A new, empty file opened for writing (`ffinit`).
    pub fn new_file() -> (h: FitsHandle)
        ensures
            h@ == (HandleView { hdus: Seq::empty(), current: 0, writable: true }),
    {
        let h = FitsHandle { hdus: Vec::new(), current: 0, writable: true };
        assert(h@.hdus =~= Seq::<HduView>::empty());
        h
    }

    /// A file with these HDUs, positioned at the first one (`ffopen`).
    pub fn from_hdus(hdus: Vec<Hdu>, writable: bool) -> (h: FitsHandle)
        ensures
            h@ == (HandleView { hdus: hdus_view(hdus@), current: 0, writable }),
    {
        FitsHandle { hdus, current: 0, writable }
    }

    /// A copy of the HDUs of the file.
    pub fn copy_hdus(&self) -> (r: Vec<Hdu>)
        ensures
            hdus_view(r@) == self@.hdus,
    {
        let mut r: Vec<Hdu> = Vec::new();
        let mut i: usize = 0;
        while i < self.hdus.len()
            invariant
                i <= self.hdus@.len(),
                r@.len() == i,
                forall|j: int| 0 <= j < i ==> #[trigger] r@[j]@ == self.hdus@[j]@,
            decreases self.hdus@.len() - i,
        {
            r.push(self.hdus[i].duplicate());
            i = i + 1;
        }
        assert(hdus_view(r@) =~= hdus_view(self.hdus@));
        r
    }

    /// Writes the primary header of an empty file (`ffphps`).
    pub fn write_primary_header(&mut self, bitpix: i32, naxes: Vec<i64>) -> (status: i32)
        ensures
            status == (if !old(self)@.writable {
                READONLY_FILE
            } else if old(self)@.hdus.len() > 0 {
                HEADER_NOT_EMPTY
            } else {
                image_status(bitpix, naxes@)
            }),
            status == 0 ==> final(self)@ == (HandleView {
                hdus: seq![
                    HduView {
                        data: HduDataView::Image { bitpix, naxes: naxes@ },
                        extname: None,
                        hduname: None,
                    },
                ],
                current: 0,
                writable: true,
            }),
            status != 0 ==> final(self)@ == old(self)@,
    {
        if !self.writable {
            return READONLY_FILE;
        }
        if self.hdus.len() > 0 {
            return HEADER_NOT_EMPTY;
        }
        let status = check_image(bitpix, &naxes);
        if status != 0 {
            return status;
        }
        let ghost axes = naxes@;
        self.hdus.push(Hdu { data: HduData::Image { bitpix, naxes }, extname: None, hduname: None });
        self.current = 0;
        assert(self@.hdus =~= seq![
            HduView { data: HduDataView::Image { bitpix, naxes: axes }, extname: None, hduname: None },
        ]);
        status
    }

    /// The status of the first unreadable header before position `n`, as
    /// `unreadable_status` gives it.
    fn scan_unreadable(&self, n: usize) -> (status: i32)
        ensures
            status == unreadable_status(self@.hdus, n as int),
            status != 0 <==> first_unreadable(self@.hdus, 0, n as int) is Some,
    {
        let mut i: usize = 0;
        while i < n && i < self.hdus.len()
            invariant
                i <= self.hdus@.len(),
                first_unreadable(self@.hdus, 0, n as int) == first_unreadable(self@.hdus, i as int, n as int),
            decreases self.hdus@.len() - i,
        {
            assert(self@.hdus[i as int] == self.hdus@[i as int]@);
            let status = check_hdu(&self.hdus[i]);
            if status != 0 {
                assert(first_unreadable(self@.hdus, i as int, n as int) == Some(i as int));
                return status;
            }
            i = i + 1;
        }
        0
    }

    /// Moves to the HDU with the given number, counted from one (`ffmahd`).
    /// cfitsio reads the headers on the way: the first one it cannot read
    /// makes the move fail with its status.
    pub fn move_abs(&mut self, hdu_num: i32) -> (status: i32)
        requires
            old(self)@.wf(),
        ensures
            status == (if hdu_num < 1 {
                BAD_HDU_NUM
            } else if unreadable_status(old(self)@.hdus, hdu_num as int) != 0 {
                unreadable_status(old(self)@.hdus, hdu_num as int)
            } else if hdu_num > old(self)@.hdus.len() {
                END_OF_FILE
            } else {
                0
            }),
            status == 0 ==> final(self)@ == old(self)@.with_current(hdu_num - 1),
            status != 0 ==> final(self)@ == old(self)@,
            final(self)@.wf(),
    {
        if hdu_num < 1 {
            return BAD_HDU_NUM;
        }
        let status = self.scan_unreadable(hdu_num as usize);
        if status != 0 {
            return status;
        }
        if hdu_num as usize > self.hdus.len() {
            return END_OF_FILE;
        }
        proof {
            lemma_first_unreadable(self@.hdus, 0, hdu_num as int);
            assert(hdu_wf(self@.hdus[hdu_num - 1]));
        }
        self.current = (hdu_num - 1) as usize;
        0
    }

    /// Moves to the first HDU of the given type whose EXTNAME or HDUNAME
    /// matches `name` taken as a template, reading the HDUs in order
    /// (`ffmnhd` with EXTVER 0).  When none matches before the end of the
    /// file or before a header that cannot be read, fails with
    /// `BAD_HDU_NUM` and stays where it was.
    pub fn move_named(&mut self, hdu_type: i32, name: &str) -> (status: i32)
        requires
            old(self)@.wf(),
        ensures
            match first_match(old(self)@.hdus, hdu_type, name@, 0) {
                Some(k) => status == 0 && final(self)@ == old(self)@.with_current(k),
                None => status == BAD_HDU_NUM && final(self)@ == old(self)@,
            },
    {
        let ghost start = self@;
        let mut i: usize = 0;
        while i < self.hdus.len()
            invariant
                i <= self.hdus@.len(),
                self@ == start,
                start == old(self)@,
                start.wf(),
                first_match(start.hdus, hdu_type, name@, 0) == first_match(start.hdus, hdu_type, name@, i as int),
            decreases self.hdus@.len() - i,
        {
            let h = &self.hdus[i];
            assert(start.hdus[i as int] == h@);
            if check_hdu(h) != 0 {
                return BAD_HDU_NUM;
            }
            let type_ok = hdu_type == ANY_HDU || hdu_type_code(h) == hdu_type;
            let ext_ok = match &h.extname {
                Some(e) => template_match(name, e.as_str()),
                None => false,
            };
            let hduname_ok = match &h.hduname {
                Some(e) => template_match(name, e.as_str()),
                None => false,
            };
            assert(ext_ok == name_is(h@.extname, name@));
            assert(hduname_ok == name_is(h@.hduname, name@));
            if type_ok && (ext_ok || hduname_ok) {
                assert(first_match(start.hdus, hdu_type, name@, i as int) == Some(i as int));
                self.current = i;
                assert(self@ == start.with_current(i as int));
                return 0;
            }
            i = i + 1;
        }
        BAD_HDU_NUM
    }

    /// The number of the current HDU, counted from one (`ffghdn`).
    pub fn hdu_num(&self) -> (n: i32)
        requires
            self@.wf(),
        ensures
            n == self@.current + 1,
    {
        (self.current + 1) as i32
    }

    /// The type code of the current HDU (`ffghdt`).
    pub fn hdu_type(&self) -> (t: i32)
        requires
            self@.wf(),
        ensures
            t == spec_hdu_type(self@.current_hdu()),
    {
        assert(self@.current_hdu() == self.hdus@[self.current as int]@);
        hdu_type_code(&self.hdus[self.current])
    }

    /// The number of axes of the current image (`ffgidm`).
    pub fn img_dim(&self) -> (naxis: i32)
        requires
            self@.wf(),
            self@.current_hdu().data is Image,
        ensures
            naxis == self@.current_hdu().data->Image_naxes.len(),
    {
        assert(self@.current_hdu() == self.hdus@[self.current as int]@);
        match &self.hdus[self.current].data {
            HduData::Image { naxes, .. } => naxes.len() as i32,
            _ => 0,
        }
    }

    /// The axis lengths of the current image (`ffgisz`), given its number
    /// of axes.
    pub fn img_size(&self, maxdim: i32) -> (naxes: Vec<i64>)
        requires
            self@.wf(),
            self@.current_hdu().data is Image,
            maxdim == self@.current_hdu().data->Image_naxes.len(),
        ensures
            naxes@ == self@.current_hdu().data->Image_naxes,
    {
        assert(self@.current_hdu() == self.hdus@[self.current as int]@);
        match &self.hdus[self.current].data {
            HduData::Image { naxes, .. } => duplicate_naxes(naxes),
            _ => Vec::new(),
        }
    }

    /// The number of rows of the current table (`ffgnrw`).
    pub fn num_rows(&self) -> (n: i64)
        requires
            self@.wf(),
            self@.current_hdu().data is Table,
        ensures
            n == self@.current_hdu().data->num_rows,
    {
        assert(self@.current_hdu() == self.hdus@[self.current as int]@);
        match &self.hdus[self.current].data {
            HduData::Table { num_rows, .. } => *num_rows,
            _ => 0,
        }
    }

    /// The number of columns of the current table (`ffgncl`).
    pub fn num_cols(&self) -> (n: i32)
        requires
            self@.wf(),
            self@.current_hdu().data is Table,
        ensures
            n == self@.current_hdu().data->columns.len(),
    {
        assert(self@.current_hdu() == self.hdus@[self.current as int]@);
        match &self.hdus[self.current].data {
            HduData::Table { columns, .. } => columns.len() as i32,
            _ => 0,
        }
    }

    /// The name and the data type code of a column of the current binary
    /// table, counted from one (`ffgbcl`).  An ASCII table fails with
    /// `NOT_BTABLE`, and the strings are then empty.
    pub fn bin_col(&self, colnum: i32) -> (r: (i32, String, String))
        requires
            self@.wf(),
            self@.current_hdu().data is Table,
            1 <= colnum <= self@.current_hdu().data->columns.len(),
        ensures
            self@.current_hdu().data->ascii ==> r.0 == NOT_BTABLE,
            !self@.current_hdu().data->ascii ==> {
                &&& r.0 == 0
                &&& r.1@ == self@.current_hdu().data->columns[colnum - 1].name
                &&& r.2@ == reported_type(self@.current_hdu().data->columns[colnum - 1].data_type)
            },
    {
        assert(self@.current_hdu() == self.hdus@[self.current as int]@);
        match &self.hdus[self.current].data {
            HduData::Table { ascii, columns, .. } => {
                if *ascii {
                    return (NOT_BTABLE, String::new(), String::new());
                }
                let c = &columns[(colnum - 1) as usize];
                assert(columns_view(columns@)[colnum - 1] == c@);
                let code = match parse_tform(c.data_type.as_str()) {
                    Some(code) => code,
                    None => String::new(),
                };
                (0, c.name.clone(), code)
            },
            _ => (NOT_BTABLE, String::new(), String::new()),
        }
    }

    /// The EXTNAME of the current HDU, if it has one (`ffgkys`).
    pub fn read_extname(&self) -> (r: Option<String>)
        requires
            self@.wf(),
        ensures
            opt_view(r) == self@.current_hdu().extname,
    {
        assert(self@.current_hdu() == self.hdus@[self.current as int]@);
        duplicate_opt(&self.hdus[self.current].extname)
    }

    /// Writes an EXTNAME keyword into the current header (`ffpkys`).  The
    /// keyword is appended, so a header that already has an EXTNAME keeps
    /// reading back the first one; a new one reads back as `key_value`
    /// gives it.
    pub fn write_extname(&mut self, value: &str) -> (status: i32)
        requires
            old(self)@.wf(),
        ensures
            status == (if old(self)@.writable { 0 } else { READONLY_FILE }),
            status != 0 ==> final(self)@ == old(self)@,
            status == 0 ==> final(self)@ == (if old(self)@.current_hdu().extname is None {
                HandleView {
                    hdus: old(self)@.hdus.update(
                        old(self)@.current,
                        HduView { extname: Some(key_value(value@)), ..old(self)@.current_hdu() },
                    ),
                    ..old(self)@
                }
            } else {
                old(self)@
            }),
            final(self)@.wf(),
    {
        if !self.writable {
            return READONLY_FILE;
        }
        let i = self.current;
        assert(self@.current_hdu() == self.hdus@[i as int]@);
        if self.hdus[i].extname.is_none() {
            let data = self.hdus[i].data.duplicate();
            let hduname = duplicate_opt(&self.hdus[i].hduname);
            let ghost before = self@;
            self.hdus.set(i, Hdu { data, extname: Some(key_value_string(value)), hduname });
            assert(self@.hdus =~= before.hdus.update(
                before.current,
                HduView { extname: Some(key_value(value@)), ..before.current_hdu() },
            ));
        }
        0
    }

    /// Appends a new table HDU at the end of the file and makes it current
    /// (`ffcrtb`).  cfitsio must read every header to reach the end of the
    /// file.  The names and upper-cased TFORM values are written as string
    /// keywords; an empty `extname` writes no EXTNAME keyword.
    pub fn create_tbl(
        &mut self,
        tbltype: i32,
        naxis2: i64,
        columns: Vec<ColumnDescription>,
        extname: &str,
    ) -> (status: i32)
        requires
            old(self)@.wf(),
            old(self)@.hdus.len() < MAX_HDUS,
        ensures
            status == (if !old(self)@.writable {
                READONLY_FILE
            } else if unreadable_status(old(self)@.hdus, old(self)@.hdus.len() as int) != 0 {
                unreadable_status(old(self)@.hdus, old(self)@.hdus.len() as int)
            } else {
                new_table_status(tbltype, naxis2, columns_view(columns@))
            }),
            status != 0 ==> final(self)@ == old(self)@,
            status == 0 ==> final(self)@ == old(self)@.with_appended(
                HduView {
                    data: HduDataView::Table {
                        ascii: tbltype == ASCII_TBL,
                        num_rows: naxis2,
                        columns: written_columns(columns_view(columns@)),
                    },
                    extname: if extname@.len() == 0 {
                        None
                    } else {
                        Some(key_value(extname@))
                    },
                    hduname: None,
                },
            ),
            final(self)@.wf(),
    {
        if !self.writable {
            return READONLY_FILE;
        }
        let n = self.hdus.len();
        let status = self.scan_unreadable(n);
        if status != 0 {
            return status;
        }
        if tbltype != ASCII_TBL && tbltype != BINARY_TBL {
            return NOT_TABLE;
        }
        let upper = upper_column_forms(&columns);
        let status = check_table_data(tbltype == ASCII_TBL, naxis2, &upper);
        if status != 0 {
            return status;
        }
        let written = written_column_forms(&columns);
        let status = check_table_data(tbltype == ASCII_TBL, naxis2, &written);
        if status != 0 {
            return status;
        }
        let name = if extname.unicode_len() == 0 {
            None
        } else {
            Some(key_value_string(extname))
        };
        let ghost before = self@;
        self.hdus.push(
            Hdu {
                data: HduData::Table { ascii: tbltype == ASCII_TBL, num_rows: naxis2, columns: written },
                extname: name,
                hduname: None,
            },
        );
        self.current = n;
        proof {
            assert(self@.hdus =~= before.hdus.push(self.hdus@[n as int]@));
            assert(self@.hdus[n as int] == self.hdus@[n as int]@);
            lemma_first_unreadable(before.hdus, 0, n as int);
            assert(self@.hdus[0] == before.hdus[0]);
        }
        0
    }

    /// Appends a new image HDU at the end of the file and makes it current
    /// (`ffcrim`).
    pub fn create_img(&mut self, bitpix: i32, naxes: Vec<i64>) -> (status: i32)
        requires
            old(self)@.wf(),
            old(self)@.hdus.len() < MAX_HDUS,
        ensures
            status == (if !old(self)@.writable {
                READONLY_FILE
            } else if unreadable_status(old(self)@.hdus, old(self)@.hdus.len() as int) != 0 {
                unreadable_status(old(self)@.hdus, old(self)@.hdus.len() as int)
            } else {
                image_status(bitpix, naxes@)
            }),
            status != 0 ==> final(self)@ == old(self)@,
            status == 0 ==> final(self)@ == old(self)@.with_appended(
                HduView {
                    data: HduDataView::Image { bitpix, naxes: naxes@ },
                    extname: None,
                    hduname: None,
                },
            ),
            final(self)@.wf(),
    {
        if !self.writable {
            return READONLY_FILE;
        }
        let n = self.hdus.len();
        let status = self.scan_unreadable(n);
        if status != 0 {
            return status;
        }
        let status = check_image(bitpix, &naxes);
        if status != 0 {
            return status;
        }
        let ghost before = self@;
        let ghost axes = naxes@;
        self.hdus.push(Hdu { data: HduData::Image { bitpix, naxes }, extname: None, hduname: None });
        self.current = n;
        proof {
            lemma_first_unreadable(before.hdus, 0, n as int);
            assert forall|m: int| 0 <= m < n + 1 implies hdu_wf(#[trigger] self@.hdus[m]) by {
                if m < n {
                    assert(self@.hdus[m] == before.hdus[m]);
                } else {
                    assert(self@.hdus[m] == self.hdus@[n as int]@);
                }
            }
            assert(self@.hdus[n as int] == self.hdus@[n as int]@);
            assert(self@.hdus =~= before.hdus.push(
                HduView { data: HduDataView::Image { bitpix, naxes: axes }, extname: None, hduname: None },
            ));
        }
        0
    }
}

/// The type code of an HDU.
fn hdu_type_code(h: &Hdu) -> (t: i32)
    ensures
        t == spec_hdu_type(h@),
{
    match &h.data {
        HduData::Image { .. } => IMAGE_HDU,
        HduData::Table { ascii, .. } => if *ascii {
            ASCII_TBL
        } else {
            BINARY_TBL
        },
        HduData::Unreadable { .. } => ANY_HDU,
    }
}

/// Copies column descriptions with each TFORM value upper-cased.
fn upper_column_forms(columns: &Vec<ColumnDescription>) -> (r: Vec<ColumnDescription>)
    ensures
        columns_view(r@) == upper_columns(columns_view(columns@)),
{
    let mut r: Vec<ColumnDescription> = Vec::new();
    let mut i: usize = 0;
    while i < columns.len()
        invariant
            i <= columns@.len(),
            r@.len() == i,
            forall|j: int|
                0 <= j < i ==> #[trigger] r@[j]@ == (ColumnDescriptionView {
                    name: columns@[j].name@,
                    data_type: upper_seq(columns@[j].data_type@),
                }),
        decreases columns@.len() - i,
    {
        let c = &columns[i];
        r.push(
            ColumnDescription { name: c.name.clone(), data_type: to_upper_string(c.data_type.as_str()) },
        );
        i = i + 1;
    }
    assert(columns_view(r@) =~= upper_columns(columns_view(columns@)));
    r
}

/// Copies column descriptions as they read back once written: each name,
/// and each upper-cased TFORM, as a string keyword value reads back.
fn written_column_forms(columns: &Vec<ColumnDescription>) -> (r: Vec<ColumnDescription>)
    ensures
        columns_view(r@) == written_columns(columns_view(columns@)),
{
    let mut r: Vec<ColumnDescription> = Vec::new();
    let mut i: usize = 0;
    while i < columns.len()
        invariant
            i <= columns@.len(),
            r@.len() == i,
            forall|j: int|
                0 <= j < i ==> #[trigger] r@[j]@ == (ColumnDescriptionView {
                    name: key_value(columns@[j].name@),
                    data_type: key_value(upper_seq(columns@[j].data_type@)),
                }),
        decreases columns@.len() - i,
    {
        let c = &columns[i];
        let upper = to_upper_string(c.data_type.as_str());
        r.push(
            ColumnDescription {
                name: key_value_string(c.name.as_str()),
                data_type: key_value_string(upper.as_str()),
            },
        );
        i = i + 1;
    }
    assert(columns_view(r@) =~= written_columns(columns_view(columns@)));
    r
}

/// The status cfitsio reports for image axes, as `axes_status` gives it.
fn check_axes(naxes: &Vec<i64>) -> (status: i32)
    ensures
        status == axes_status(naxes@),
{
    if naxes.len() > MAX_AXES {
        return BAD_NAXIS;
    }
    let mut i: usize = 0;
    while i < naxes.len()
        invariant
            i <= naxes@.len(),
            naxes@.len() <= MAX_AXES,
            forall|j: int| 0 <= j < i ==> naxes@[j] >= 0,
        decreases naxes@.len() - i,
    {
        if naxes[i] < 0 {
            assert(naxes@[i as int] < 0);
            return BAD_NAXES;
        }
        i = i + 1;
    }
    0
}

/// The status cfitsio reports for an image, as `image_status` gives it.
fn check_image(bitpix: i32, naxes: &Vec<i64>) -> (status: i32)
    ensures
        status == image_status(bitpix, naxes@),
{
    if !(bitpix == 8 || bitpix == 16 || bitpix == 32 || bitpix == 64 || bitpix == -32 || bitpix
        == -64) {
        return BAD_BITPIX;
    }
    check_axes(naxes)
}

/// The status cfitsio reports for a table, as `table_data_status` gives it.
fn check_table_data(ascii: bool, num_rows: i64, columns: &Vec<ColumnDescription>) -> (status: i32)
    ensures
        status == table_data_status(ascii, num_rows, columns_view(columns@)),
{
    let ghost cols = columns_view(columns@);
    if columns.len() > MAX_COLUMNS {
        return BAD_TFIELDS;
    }
    if num_rows < 0 {
        return NEG_ROWS;
    }
    if ascii {
        return 0;
    }
    let mut i: usize = 0;
    while i < columns.len()
        invariant
            cols == columns_view(columns@),
            cols.len() <= MAX_COLUMNS,
            num_rows >= 0,
            !ascii,
            i <= columns@.len(),
            forall|j: int| 0 <= j < i ==> tform_code(#[trigger] cols[j].data_type) is Some,
        decreases columns@.len() - i,
    {
        assert(cols[i as int] == columns@[i as int]@);
        if parse_tform(columns[i].data_type.as_str()).is_none() {
            assert(tform_code(cols[i as int].data_type) is None);
            return BAD_TFORM;
        }
        i = i + 1;
    }
    assert(!(exists|j: int| 0 <= j < cols.len() && tform_code(cols[j].data_type) is None));
    0
}

/// The status cfitsio reports when it reads the header of an HDU, as
/// `hdu_status` gives it.
pub fn check_hdu(h: &Hdu) -> (status: i32)
    ensures
        status == hdu_status(h@),
{
    match &h.data {
        HduData::Image { bitpix, naxes } => check_image(*bitpix, naxes),
        HduData::Table { ascii, num_rows, columns } => check_table_data(*ascii, *num_rows, columns),
        HduData::Unreadable { status } => if *status == 0 {
            END_OF_FILE
        } else {
            *status
        },
    }
}

} // verus!

//! `FitsFile`, the main entry point: a FITS file as cfitsio holds it, with
//! the operations that select an HDU, describe it, and append new images
//! and tables.
use vstd::prelude::*;
use vstd::string::*;

use crate::error::{
    fits_try, is_status_error, FitsError, BAD_HDU_NUM, BAD_TFIELDS, END_OF_FILE, NOT_BTABLE,
    NO_SIMPLE, READONLY_FILE,
};
use crate::model::{
    check_hdu, first_match, hdu_status, hdu_wf, hdus_view, image_status, new_table_status, reported_type,
    unreadable_status, written_columns, FitsHandle, HandleView, Hdu, HduDataView, HduView,
    MAX_HDUS,
};
use crate::text::key_value;
use crate::types::{
    columns_view, spec_bitpix, ColumnDescription, ColumnDescriptionView, HduInfo, HduInfoView,
    ImageType, ANY_HDU, BINARY_TBL, IMAGE_HDU,
};

verus! {

/// The pixel type and the axis lengths of a new image.
#[derive(Debug)]
pub struct ImageDescription {
    pub data_type: ImageType,
    pub dimensions: Vec<usize>,
}

/// A string that holds no NUL character, so that it can be handed to C.
pub open spec fn no_nul(s: Seq<char>) -> bool {
    forall|i: int| 0 <= i < s.len() ==> s[i] != '\0'
}

/// What the library reports of an HDU: an image's axis lengths, or a
/// binary table's columns (with the data type code cfitsio parses from
/// each TFORM) and its number of rows.  cfitsio refuses to describe the
/// columns of an ASCII table (`NOT_BTABLE`), so only an ASCII table without
/// columns is described.
pub open spec fn spec_fetch(h: HduView) -> Result<HduInfoView, i32> {
    match h.data {
        HduDataView::Image { naxes, .. } => Ok(
            HduInfoView::ImageInfo { shape: naxes.map_values(|x: i64| x as usize) },
        ),
        HduDataView::Table { ascii, num_rows, columns } => if ascii && columns.len() > 0 {
            Err(NOT_BTABLE)
        } else {
            Ok(
                HduInfoView::TableInfo {
                    column_descriptions: columns.map_values(
                        |c: ColumnDescriptionView|
                            ColumnDescriptionView { name: c.name, data_type: reported_type(c.data_type) },
                    ),
                    num_rows: num_rows as usize,
                },
            )
        },
        HduDataView::Unreadable { .. } => Err(hdu_status(h)),
    }
}

/// The status cfitsio reports when it opens a file with these HDUs, or zero
/// when it accepts them.  Opening reads only the primary header, which must
/// be a readable image; the other HDUs are read when the file moves to
/// them.
pub open spec fn contents_status(hdus: Seq<HduView>) -> i32 {
    if hdus.len() == 0 {
        END_OF_FILE
    } else if hdus.len() > MAX_HDUS {
        BAD_HDU_NUM
    } else if hdus[0].data is Table {
        NO_SIMPLE
    } else {
        hdu_status(hdus[0])
    }
}

/// An open FITS file: its name and the state cfitsio keeps for it.
#[derive(Debug)]
pub struct FitsFile {
    pub filename: String,
    pub handle: FitsHandle,
}

/// `FitsFile` as mathematical values.
pub struct FitsView {
    pub filename: Seq<char>,
    pub state: HandleView,
}

impl View for FitsFile {
    type V = FitsView;

    open spec fn view(&self) -> FitsView {
        FitsView { filename: self.filename@, state: self.handle@ }
    }
}

/// An HDU as the library hands it out: what it holds, its position in the
/// file (counted from zero) and its EXTNAME.
#[derive(Debug, PartialEq, Eq)]
pub struct FitsHdu {
    pub info: HduInfo,
    pub hdu_num: usize,
    pub extname: Option<String>,
}

/// `FitsHdu` as mathematical values.
pub struct FitsHduView {
    pub info: HduInfoView,
    pub hdu_num: int,
    pub extname: Option<Seq<char>>,
}

impl View for FitsHdu {
    type V = FitsHduView;

    open spec fn view(&self) -> FitsHduView {
        FitsHduView {
            info: self.info@,
            hdu_num: self.hdu_num as int,
            extname: crate::model::opt_view(self.extname),
        }
    }
}

/// The HDU at position `i` of a file as the library hands it out, or the
/// status with which describing it fails.
pub open spec fn hdu_result(s: HandleView, i: int) -> Result<FitsHduView, i32> {
    match spec_fetch(s.hdus[i]) {
        Ok(info) => Ok(FitsHduView { info, hdu_num: i, extname: s.hdus[i].extname }),
        Err(e) => Err(e),
    }
}

/// How an HDU is named: by its position, counted from zero, or by its
/// EXTNAME or HDUNAME.
pub enum HduDescription {
    Number(usize),
    Name(String),
}

/// `HduDescription` as mathematical values.
pub enum HduTarget {
    Number(usize),
    Name(Seq<char>),
}

impl View for HduDescription {
    type V = HduTarget;

    open spec fn view(&self) -> HduTarget {
        match self {
            HduDescription::Number(n) => HduTarget::Number(*n),
            HduDescription::Name(s) => HduTarget::Name(s@),
        }
    }
}

/// A value that names an HDU of a file: a position counted from zero
/// (`usize`) or a name (`&str`).
pub trait DescribesHdu {
    /// The HDU that this value names.
    spec fn target(&self) -> HduTarget;

    /// The description of the HDU that this value names.
    fn describe(&self) -> (d: HduDescription)
        ensures
            d@ == self.target(),
    ;
}

impl DescribesHdu for usize {
    open spec fn target(&self) -> HduTarget {
        HduTarget::Number(*self)
    }

    fn describe(&self) -> (d: HduDescription) {
        HduDescription::Number(*self)
    }
}

impl<'a> DescribesHdu for &'a str {
    open spec fn target(&self) -> HduTarget {
        HduTarget::Name((*self)@)
    }

    fn describe(&self) -> (d: HduDescription) {
        HduDescription::Name(String::from_str(*self))
    }
}

/// A description that can be handed to C: a name holds no NUL character.
pub open spec fn target_ok(t: HduTarget) -> bool {
    t matches HduTarget::Name(s) ==> no_nul(s)
}

/// The file and the status after selecting an HDU.  A position is reached
/// by reading every header up to it: the first header cfitsio cannot read
/// makes the selection fail with its status; past the last HDU it fails
/// with `END_OF_FILE`.  A name selects the first HDU whose EXTNAME or
/// HDUNAME matches it taken as a template (ignoring ASCII case, with `*`,
/// `?` and `#` as wildcards), reading the HDUs in order (else
/// `BAD_HDU_NUM`).  A failed selection leaves the file as it was.
pub open spec fn spec_change_hdu(s: HandleView, t: HduTarget) -> (HandleView, Result<(), i32>) {
    match t {
        HduTarget::Number(n) => if unreadable_status(s.hdus, n + 1) != 0 {
            (s, Err(unreadable_status(s.hdus, n + 1)))
        } else if n >= s.hdus.len() {
            (s, Err(END_OF_FILE))
        } else {
            (s.with_current(n as int), Ok(()))
        },
        HduTarget::Name(name) => match first_match(s.hdus, ANY_HDU, name, 0) {
            Some(k) => (s.with_current(k), Ok(())),
            None => (s, Err(BAD_HDU_NUM)),
        },
    }
}

/// The file and the result after selecting an HDU and describing it.
pub open spec fn spec_hdu(s: HandleView, t: HduTarget) -> (HandleView, Result<FitsHduView, i32>) {
    let (s2, r) = spec_change_hdu(s, t);
    match r {
        Ok(_) => (s2, hdu_result(s2, s2.current)),
        Err(e) => (s2, Err(e)),
    }
}

/// A new binary table with no rows, as it reads back once cfitsio has
/// written it: its column names and upper-cased TFORM values, and its
/// EXTNAME unless `extname` is empty, as string keyword values read back.
pub open spec fn new_table(extname: Seq<char>, columns: Seq<ColumnDescriptionView>) -> HduView {
    HduView {
        data: HduDataView::Table { ascii: false, num_rows: 0, columns: written_columns(columns) },
        extname: if extname.len() == 0 {
            None
        } else {
            Some(key_value(extname))
        },
        hduname: None,
    }
}

/// The file and the result after appending a binary table with no rows: a
/// read-only file refuses (`READONLY_FILE`); a file with a header that
/// cfitsio cannot read fails with its status, since cfitsio cannot reach
/// the end; cfitsio refuses more than 999 columns (`BAD_TFIELDS`) or a
/// TFORM that names no data type (`BAD_TFORM`); otherwise the new table is
/// the last and current HDU.
pub open spec fn spec_create_table(
    s: HandleView,
    extname: Seq<char>,
    columns: Seq<ColumnDescriptionView>,
) -> (HandleView, Result<FitsHduView, i32>) {
    if !s.writable {
        (s, Err(READONLY_FILE))
    } else if unreadable_status(s.hdus, s.hdus.len() as int) != 0 {
        (s, Err(unreadable_status(s.hdus, s.hdus.len() as int)))
    } else if new_table_status(BINARY_TBL, 0, columns) != 0 {
        (s, Err(new_table_status(BINARY_TBL, 0, columns)))
    } else {
        let s2 = s.with_appended(new_table(extname, columns));
        (s2, hdu_result(s2, s2.current))
    }
}

/// The axis lengths that cfitsio is handed for an image: each dimension
/// as a C `long`.
pub open spec fn naxes_of(dims: Seq<usize>) -> Seq<i64> {
    dims.map_values(|d: usize| d as i64)
}

/// The file and the result after appending an image and naming it: a
/// read-only file refuses (`READONLY_FILE`); a file with a header that
/// cfitsio cannot read fails with its status; cfitsio refuses more than
/// 999 axes or a negative axis length; otherwise the new image, with its
/// EXTNAME as `extname` reads back, is the last and current HDU.
pub open spec fn spec_create_image(
    s: HandleView,
    extname: Seq<char>,
    data_type: ImageType,
    dims: Seq<usize>,
) -> (HandleView, Result<FitsHduView, i32>) {
    let bitpix = spec_bitpix(data_type);
    if !s.writable {
        (s, Err(READONLY_FILE))
    } else if unreadable_status(s.hdus, s.hdus.len() as int) != 0 {
        (s, Err(unreadable_status(s.hdus, s.hdus.len() as int)))
    } else if image_status(bitpix, naxes_of(dims)) != 0 {
        (s, Err(image_status(bitpix, naxes_of(dims))))
    } else {
        let s2 = s.with_appended(
            HduView {
                data: HduDataView::Image { bitpix, naxes: naxes_of(dims) },
                extname: Some(key_value(extname)),
                hduname: None,
            },
        );
        (s2, hdu_result(s2, s2.current))
    }
}

/// The same file opened again: the same HDUs, read-only, at the first HDU.
pub open spec fn spec_reopen(s: HandleView) -> HandleView {
    HandleView { hdus: s.hdus, current: 0, writable: false }
}

/// The primary HDU that a new file starts with: an empty 8-bit image.
pub open spec fn empty_primary() -> HduView {
    HduView { data: HduDataView::Image { bitpix: 8, naxes: Seq::empty() }, extname: None, hduname: None }
}

/// A `Result` of the library that agrees with a spec result: `Ok` with a
/// value whose view is the expected one, or the error for the expected
/// status.
pub open spec fn agrees<T: View>(r: Result<T, FitsError>, o: Result<T::V, i32>) -> bool {
    match (r, o) {
        (Ok(v), Ok(w)) => v@ == w,
        (Err(e), Err(st)) => is_status_error(e, st),
        _ => false,
    }
}

/// Like `agrees`, for results that carry no value.
pub open spec fn agrees_unit(r: Result<(), FitsError>, o: Result<(), i32>) -> bool {
    match (r, o) {
        (Ok(_), Ok(_)) => true,
        (Err(e), Err(st)) => is_status_error(e, st),
        _ => false,
    }
}

/// Describes the current HDU of the file.
fn fetch_hdu_info(handle: &FitsHandle) -> (r: Result<HduInfo, FitsError>)
    requires
        handle@.wf(),
    ensures
        agrees(r, spec_fetch(handle@.current_hdu())),
{
    let hdu_type = handle.hdu_type();
    if hdu_type == IMAGE_HDU {
        let dimensions = handle.img_dim();
        let naxes = handle.img_size(dimensions);
        let mut shape: Vec<usize> = Vec::new();
        let mut i: usize = 0;
        while i < naxes.len()
            invariant
                i <= naxes@.len(),
                shape@.len() == i,
                forall|j: int| 0 <= j < i ==> #[trigger] shape@[j] == naxes@[j] as usize,
            decreases naxes@.len() - i,
        {
            shape.push(naxes[i] as usize);
            i = i + 1;
        }
        assert(shape@ =~= naxes@.map_values(|x: i64| x as usize));
        fits_try(0, HduInfo::ImageInfo { shape })
    } else {
        let num_rows = handle.num_rows();
        let num_cols = handle.num_cols();
        let ghost cols = handle@.current_hdu().data->columns;
        let ghost ascii = handle@.current_hdu().data->ascii;
        let mut status: i32 = 0;
        let mut column_descriptions: Vec<ColumnDescription> = Vec::new();
        let mut i: i32 = 0;
        while i < num_cols
            invariant
                handle@.wf(),
                handle@.current_hdu().data is Table,
                cols == handle@.current_hdu().data->columns,
                ascii == handle@.current_hdu().data->ascii,
                num_cols == cols.len(),
                0 <= i <= num_cols,
                status == (if ascii && i > 0 { NOT_BTABLE } else { 0 }),
                column_descriptions@.len() <= i,
                !ascii ==> column_descriptions@.len() == i,
                !ascii ==> forall|j: int|
                    0 <= j < i ==> #[trigger] column_descriptions@[j]@ == (ColumnDescriptionView {
                        name: cols[j].name,
                        data_type: reported_type(cols[j].data_type),
                    }),
            decreases num_cols - i,
        {
            if status == 0 {
                let (col_status, name, data_type) = handle.bin_col(i + 1);
                status = col_status;
                column_descriptions.push(ColumnDescription { name, data_type });
            }
            i = i + 1;
        }
        proof {
            if ascii && num_cols == 0 {
                assert(columns_view(column_descriptions@) =~= cols.map_values(
                    |c: ColumnDescriptionView|
                        ColumnDescriptionView { name: c.name, data_type: reported_type(c.data_type) },
                ));
            }
            if !ascii {
                assert(columns_view(column_descriptions@) =~= cols.map_values(
                    |c: ColumnDescriptionView|
                        ColumnDescriptionView { name: c.name, data_type: reported_type(c.data_type) },
                ));
            }
        }
        fits_try(status, HduInfo::TableInfo { column_descriptions, num_rows: num_rows as usize })
    }
}

/// Writes an empty primary header (8-bit pixels, no axes) into a new file.
fn add_empty_primary(handle: &mut FitsHandle) -> (r: Result<(), FitsError>)
    requires
        old(handle)@ == (HandleView { hdus: Seq::empty(), current: 0, writable: true }),
    ensures
        r is Ok,
        final(handle)@ == (HandleView { hdus: seq![empty_primary()], current: 0, writable: true }),
{
    let status = handle.write_primary_header(8, Vec::new());
    assert(crate::model::valid_bitpix(8));
    assert(crate::model::axes_status(Seq::<i64>::empty()) == 0);
    fits_try(status, ())
}

/// Checks the HDUs read from a file, as `contents_status` gives it.
fn check_contents(hdus: &Vec<Hdu>) -> (status: i32)
    ensures
        status == contents_status(hdus_view(hdus@)),
{
    let ghost v = hdus_view(hdus@);
    if hdus.len() == 0 {
        return END_OF_FILE;
    }
    if hdus.len() > MAX_HDUS {
        return BAD_HDU_NUM;
    }
    assert(v[0] == hdus@[0]@);
    match &hdus[0].data {
        crate::model::HduData::Table { .. } => NO_SIMPLE,
        _ => check_hdu(&hdus[0]),
    }
}

impl FitsFile {
    /// Builds an open file from the HDUs read from it, or fails with the
    /// status cfitsio gives when it cannot open them.
    fn from_contents(filename: String, hdus: Vec<Hdu>, writable: bool) -> (r: Result<FitsFile, FitsError>)
        ensures
            contents_status(hdus_view(hdus@)) == 0 ==> (r matches Ok(f) && f@ == (FitsView {
                filename: filename@,
                state: HandleView { hdus: hdus_view(hdus@), current: 0, writable },
            }) && f@.state.wf()),
            contents_status(hdus_view(hdus@)) != 0 ==> (r matches Err(e) && is_status_error(
                e,
                contents_status(hdus_view(hdus@)),
            )),
    {
        let status = check_contents(&hdus);
        if let Err(e) = fits_try(status, ()) {
            return Err(e);
        }
        let handle = FitsHandle::from_hdus(hdus, writable);
        Ok(FitsFile { filename, handle })
    }
}

/// Copies a slice of column descriptions into a vector.
fn copy_columns(cols: &[ColumnDescription]) -> (r: Vec<ColumnDescription>)
    ensures
        columns_view(r@) == columns_view(cols@),
{
    let mut r: Vec<ColumnDescription> = Vec::new();
    let mut i: usize = 0;
    while i < cols.len()
        invariant
            i <= cols@.len(),
            r@.len() == i,
            forall|j: int| 0 <= j < i ==> #[trigger] r@[j]@ == cols@[j]@,
        decreases cols@.len() - i,
    {
        r.push(cols[i].duplicate());
        i = i + 1;
    }
    assert(columns_view(r@) =~= columns_view(cols@));
    r
}

/// The axis lengths of an image as C `long` values.
fn dims_to_naxes(dims: &Vec<usize>) -> (r: Vec<i64>)
    ensures
        r@ == naxes_of(dims@),
{
    let mut r: Vec<i64> = Vec::new();
    let mut i: usize = 0;
    while i < dims.len()
        invariant
            i <= dims@.len(),
            r@.len() == i,
            forall|j: int| 0 <= j < i ==> #[trigger] r@[j] == dims@[j] as i64,
        decreases dims@.len() - i,
    {
        r.push(dims[i] as i64);
        i = i + 1;
    }
    assert(r@ =~= naxes_of(dims@));
    r
}

impl FitsFile {
    /// Opens a FITS file read-only, given the HDUs read from it.
    pub fn open(filename: String, hdus: Vec<Hdu>) -> (r: Result<FitsFile, FitsError>)
        requires
            no_nul(filename@),
        ensures
            contents_status(hdus_view(hdus@)) == 0 ==> (r matches Ok(f) && f@ == (FitsView {
                filename: filename@,
                state: HandleView { hdus: hdus_view(hdus@), current: 0, writable: false },
            }) && f@.state.wf()),
            contents_status(hdus_view(hdus@)) != 0 ==> (r matches Err(e) && is_status_error(
                e,
                contents_status(hdus_view(hdus@)),
            )),
    {
        FitsFile::from_contents(filename, hdus, false)
    }

    /// Opens a FITS file for reading and writing, given the HDUs read from
    /// it.
    pub fn edit(filename: String, hdus: Vec<Hdu>) -> (r: Result<FitsFile, FitsError>)
        requires
            no_nul(filename@),
        ensures
            contents_status(hdus_view(hdus@)) == 0 ==> (r matches Ok(f) && f@ == (FitsView {
                filename: filename@,
                state: HandleView { hdus: hdus_view(hdus@), current: 0, writable: true },
            }) && f@.state.wf()),
            contents_status(hdus_view(hdus@)) != 0 ==> (r matches Err(e) && is_status_error(
                e,
                contents_status(hdus_view(hdus@)),
            )),
    {
        FitsFile::from_contents(filename, hdus, true)
    }

    /// Creates a new FITS file, open for writing, holding an empty primary
    /// HDU.
    pub fn create(path: String) -> (r: Result<FitsFile, FitsError>)
        requires
            no_nul(path@),
        ensures
            r matches Ok(f) && f@ == (FitsView {
                filename: path@,
                state: HandleView { hdus: seq![empty_primary()], current: 0, writable: true },
            }) && f@.state.wf(),
    {
        let mut handle = FitsHandle::new_file();
        match add_empty_primary(&mut handle) {
            Ok(_) => {},
            Err(e) => {
                return Err(e);
            },
        }
        let f = FitsFile { filename: path, handle };
        assert(hdu_wf(f@.state.hdus[0]));
        Ok(f)
    }

    /// Makes the HDU that `hdu_description` names the current one.
    pub fn change_hdu<T: DescribesHdu>(&mut self, hdu_description: T) -> (r: Result<(), FitsError>)
        requires
            old(self)@.state.wf(),
            target_ok(hdu_description.target()),
        ensures
            final(self)@.filename == old(self)@.filename,
            final(self)@.state == spec_change_hdu(old(self)@.state, hdu_description.target()).0,
            agrees_unit(r, spec_change_hdu(old(self)@.state, hdu_description.target()).1),
            final(self)@.state.wf(),
    {
        match hdu_description.describe() {
            HduDescription::Number(n) => {
                let hdu_num: i32 = if n >= MAX_HDUS {
                    (MAX_HDUS + 1) as i32
                } else {
                    (n + 1) as i32
                };
                proof {
                    crate::model::lemma_first_unreadable_cap(
                        old(self)@.state.hdus,
                        0,
                        hdu_num as int,
                        n + 1,
                    );
                }
                let status = self.handle.move_abs(hdu_num);
                fits_try(status, ())
            },
            HduDescription::Name(name) => {
                let any_type = HduInfo::AnyInfo.type_code();
                let status = self.handle.move_named(any_type, name.as_str());
                proof {
                    crate::model::lemma_first_match(old(self)@.state.hdus, ANY_HDU, name@, 0);
                }
                fits_try(status, ())
            },
        }
    }

    /// Describes the current HDU.
    fn describe_current(&self) -> (r: Result<FitsHdu, FitsError>)
        requires
            self@.state.wf(),
        ensures
            agrees(r, hdu_result(self@.state, self@.state.current)),
    {
        match fetch_hdu_info(&self.handle) {
            Ok(info) => Ok(FitsHdu { info, hdu_num: self.hdu_number(), extname: self.handle.read_extname() }),
            Err(e) => Err(e),
        }
    }

    /// Makes the HDU that `hdu_description` names the current one and
    /// describes it.
    pub fn hdu<T: DescribesHdu>(&mut self, hdu_description: T) -> (r: Result<FitsHdu, FitsError>)
        requires
            old(self)@.state.wf(),
            target_ok(hdu_description.target()),
        ensures
            final(self)@.filename == old(self)@.filename,
            final(self)@.state == spec_hdu(old(self)@.state, hdu_description.target()).0,
            agrees(r, spec_hdu(old(self)@.state, hdu_description.target()).1),
            final(self)@.state.wf(),
    {
        match self.change_hdu(hdu_description) {
            Ok(_) => self.describe_current(),
            Err(e) => Err(e),
        }
    }

    /// The position of the current HDU, counted from zero.
    pub fn hdu_number(&self) -> (n: usize)
        requires
            self@.state.wf(),
        ensures
            n == self@.state.current,
    {
        (self.handle.hdu_num() - 1) as usize
    }

    /// Describes the current HDU; the file is left as it was.
    pub fn current_hdu(&mut self) -> (r: Result<FitsHdu, FitsError>)
        requires
            old(self)@.state.wf(),
        ensures
            final(self)@ == old(self)@,
            agrees(r, hdu_result(old(self)@.state, old(self)@.state.current)),
    {
        let current_hdu_number = self.hdu_number();
        proof {
            crate::model::lemma_readable_none_unreadable(self@.state.hdus, 0, current_hdu_number + 1);
        }
        self.hdu(current_hdu_number)
    }

    /// What the current HDU holds.
    pub fn fetch_hdu_info(&self) -> (r: Result<HduInfo, FitsError>)
        requires
            self@.state.wf(),
        ensures
            agrees(r, spec_fetch(self@.state.current_hdu())),
    {
        fetch_hdu_info(&self.handle)
    }

    /// Appends a binary table with the given columns and no rows, named
    /// `extname`, and describes it.
    pub fn create_table(&mut self, extname: String, table_description: &[ColumnDescription]) -> (r:
        Result<FitsHdu, FitsError>)
        requires
            old(self)@.state.wf(),
            old(self)@.state.hdus.len() < MAX_HDUS,
            no_nul(extname@),
            forall|i: int|
                0 <= i < table_description@.len() ==> no_nul(#[trigger] table_description@[i].name@)
                    && no_nul(table_description@[i].data_type@),
        ensures
            final(self)@.filename == old(self)@.filename,
            final(self)@.state == spec_create_table(
                old(self)@.state,
                extname@,
                columns_view(table_description@),
            ).0,
            agrees(r, spec_create_table(old(self)@.state, extname@, columns_view(table_description@)).1),
            final(self)@.state.wf(),
    {
        let hdu_info = HduInfo::TableInfo {
            column_descriptions: copy_columns(table_description),
            num_rows: 0,
        };
        let tbltype = hdu_info.type_code();
        let columns = match hdu_info {
            HduInfo::TableInfo { column_descriptions, .. } => column_descriptions,
            _ => Vec::new(),
        };
        let status = self.handle.create_tbl(tbltype, 0, columns, extname.as_str());
        if let Err(e) = fits_try(status, ()) {
            return Err(e);
        }
        self.current_hdu()
    }

    /// Appends an image of the given pixel type and axis lengths, names it
    /// `extname`, and describes it.
    pub fn create_image(&mut self, extname: String, image_description: &ImageDescription) -> (r:
        Result<FitsHdu, FitsError>)
        requires
            old(self)@.state.wf(),
            old(self)@.state.hdus.len() < MAX_HDUS,
            no_nul(extname@),
        ensures
            final(self)@.filename == old(self)@.filename,
            final(self)@.state == spec_create_image(
                old(self)@.state,
                extname@,
                image_description.data_type,
                image_description.dimensions@,
            ).0,
            agrees(
                r,
                spec_create_image(
                    old(self)@.state,
                    extname@,
                    image_description.data_type,
                    image_description.dimensions@,
                ).1,
            ),
            final(self)@.state.wf(),
    {
        let ghost s0 = self@.state;
        let naxes = dims_to_naxes(&image_description.dimensions);
        let status = self.handle.create_img(image_description.data_type.bitpix(), naxes);
        if let Err(e) = fits_try(status, ()) {
            return Err(e);
        }
        if let Err(e) = self.current_hdu() {
            return Err(e);
        }
        let status = self.handle.write_extname(extname.as_str());
        if let Err(e) = fits_try(status, ()) {
            return Err(e);
        }
        assert(self@.state.hdus =~= s0.hdus.push(
            HduView {
                data: HduDataView::Image {
                    bitpix: spec_bitpix(image_description.data_type),
                    naxes: naxes_of(image_description.dimensions@),
                },
                extname: Some(key_value(extname@)),
                hduname: None,
            },
        ));
        self.current_hdu()
    }
}

impl Clone for FitsFile {
    /// Opens the same file again, read-only and at its first HDU.
    fn clone(&self) -> (r: FitsFile)
        ensures
            r@ == (FitsView { filename: self@.filename, state: spec_reopen(self@.state) }),
    {
        let hdus = self.handle.copy_hdus();
        FitsFile { filename: self.filename.clone(), handle: FitsHandle::from_hdus(hdus, false) }
    }
}

} // verus!

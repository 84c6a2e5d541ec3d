use vstd::prelude::*;
use vstd::string::*;

verus! {

/// The name and the data type (a TFORM value such as `1J`) of a table column.
#[derive(Debug, PartialEq, Eq)]
pub struct ColumnDescription {
    pub name: String,
    pub data_type: String,
}

/// A column description as character sequences.
pub struct ColumnDescriptionView {
    pub name: Seq<char>,
    pub data_type: Seq<char>,
}

impl View for ColumnDescription {
    type V = ColumnDescriptionView;

    open spec fn view(&self) -> ColumnDescriptionView {
        ColumnDescriptionView { name: self.name@, data_type: self.data_type@ }
    }
}

/// The views of a sequence of column descriptions.
pub open spec fn columns_view(cols: Seq<ColumnDescription>) -> Seq<ColumnDescriptionView> {
    cols.map_values(|c: ColumnDescription| c@)
}

impl ColumnDescription {
    /// A copy of the description with the same view.
    pub fn duplicate(&self) -> (r: ColumnDescription)
        ensures
            r@ == self@,
    {
        ColumnDescription { name: self.name.clone(), data_type: self.data_type.clone() }
    }
}

/// Copies a list of column descriptions.
pub fn duplicate_columns(cols: &Vec<ColumnDescription>) -> (r: Vec<ColumnDescription>)
    ensures
        columns_view(r@) == columns_view(cols@),
{
    let mut r: Vec<ColumnDescription> = Vec::new();
    let mut i: usize = 0;
    while i < cols.len()
        invariant
            i <= cols.len(),
            r@.len() == i,
            forall|j: int| 0 <= j < i ==> #[trigger] r@[j]@ == cols@[j]@,
        decreases cols.len() - i,
    {
        r.push(cols[i].duplicate());
        i = i + 1;
    }
    assert(columns_view(r@) =~= columns_view(cols@));
    r
}

} // verus!

verus! {

/// cfitsio's code for an image HDU.
pub const IMAGE_HDU: i32 = 0;

/// cfitsio's code for an ASCII table HDU.
pub const ASCII_TBL: i32 = 1;

/// cfitsio's code for a binary table HDU.
pub const BINARY_TBL: i32 = 2;

/// cfitsio's code that matches an HDU of any type.
pub const ANY_HDU: i32 = -1;

/// What an HDU holds: the shape of an image, or the columns and the number
/// of rows of a table.
#[derive(Debug, PartialEq, Eq)]
pub enum HduInfo {
    ImageInfo { shape: Vec<usize> },
    TableInfo { column_descriptions: Vec<ColumnDescription>, num_rows: usize },
    AnyInfo,
}

/// An `HduInfo` as mathematical values.
pub enum HduInfoView {
    ImageInfo { shape: Seq<usize> },
    TableInfo { column_descriptions: Seq<ColumnDescriptionView>, num_rows: usize },
    AnyInfo,
}

impl View for HduInfo {
    type V = HduInfoView;

    open spec fn view(&self) -> HduInfoView {
        match self {
            HduInfo::ImageInfo { shape } => HduInfoView::ImageInfo { shape: shape@ },
            HduInfo::TableInfo { column_descriptions, num_rows } => HduInfoView::TableInfo {
                column_descriptions: columns_view(column_descriptions@),
                num_rows: *num_rows,
            },
            HduInfo::AnyInfo => HduInfoView::AnyInfo,
        }
    }
}

/// The cfitsio HDU type code that stands for an `HduInfo`: a table is
/// created as a binary table, and `AnyInfo` matches every type.
pub open spec fn spec_hdu_type_code(info: HduInfoView) -> i32 {
    match info {
        HduInfoView::ImageInfo { .. } => IMAGE_HDU,
        HduInfoView::TableInfo { .. } => BINARY_TBL,
        HduInfoView::AnyInfo => ANY_HDU,
    }
}

impl HduInfo {
    /// The cfitsio HDU type code of this kind of HDU.
    pub fn type_code(&self) -> (code: i32)
        ensures
            code == spec_hdu_type_code(self@),
    {
        match self {
            HduInfo::ImageInfo { .. } => IMAGE_HDU,
            HduInfo::TableInfo { .. } => BINARY_TBL,
            HduInfo::AnyInfo => ANY_HDU,
        }
    }
}

/// The pixel type of an image.
#[allow(non_camel_case_types)]
#[derive(Debug, Clone, Copy, PartialEq, Eq)]
pub enum ImageType {
    BYTE_IMG,
    SHORT_IMG,
    LONG_IMG,
    LONGLONG_IMG,
    FLOAT_IMG,
    DOUBLE_IMG,
}

/// The BITPIX value of a pixel type.
pub open spec fn spec_bitpix(t: ImageType) -> i32 {
    match t {
        ImageType::BYTE_IMG => 8i32,
        ImageType::SHORT_IMG => 16i32,
        ImageType::LONG_IMG => 32i32,
        ImageType::LONGLONG_IMG => 64i32,
        ImageType::FLOAT_IMG => -32i32,
        ImageType::DOUBLE_IMG => -64i32,
    }
}

impl ImageType {
    /// The BITPIX value that cfitsio is given for this pixel type.
    pub fn bitpix(&self) -> (b: i32)
        ensures
            b == spec_bitpix(*self),
    {
        match self {
            ImageType::BYTE_IMG => 8,
            ImageType::SHORT_IMG => 16,
            ImageType::LONG_IMG => 32,
            ImageType::LONGLONG_IMG => 64,
            ImageType::FLOAT_IMG => -32,
            ImageType::DOUBLE_IMG => -64,
        }
    }
}

/// The data type of a table column.
#[derive(Debug, Clone, Copy, PartialEq, Eq)]
pub enum DataType {
    TBIT,
    TBYTE,
    TLOGICAL,
    TSTRING,
    TSHORT,
    TLONG,
    TFLOAT,
    TDOUBLE,
    TCOMPLEX,
    TDBLCOMPLEX,
}

/// The data type named by a one-letter FITS type character.
pub open spec fn spec_char_data_type(c: char) -> Option<DataType> {
    if c == 'X' {
        Some(DataType::TBIT)
    } else if c == 'B' {
        Some(DataType::TBYTE)
    } else if c == 'L' {
        Some(DataType::TLOGICAL)
    } else if c == 'A' {
        Some(DataType::TSTRING)
    } else if c == 'I' {
        Some(DataType::TSHORT)
    } else if c == 'J' {
        Some(DataType::TLONG)
    } else if c == 'E' {
        Some(DataType::TFLOAT)
    } else if c == 'D' {
        Some(DataType::TDOUBLE)
    } else if c == 'C' {
        Some(DataType::TCOMPLEX)
    } else if c == 'M' {
        Some(DataType::TDBLCOMPLEX)
    } else {
        None
    }
}

/// A type string that names a data type: a single known type character.
pub open spec fn is_typechar(s: Seq<char>) -> bool {
    s.len() == 1 && spec_char_data_type(s[0]) is Some
}

/// The data type named by a type string such as `J` (a 32-bit integer).
pub fn typechar_to_data_type(typechar: &str) -> (t: DataType)
    requires
        is_typechar(typechar@),
    ensures
        Some(t) == spec_char_data_type(typechar@[0]),
{
    let c = typechar.get_char(0);
    if c == 'X' {
        DataType::TBIT
    } else if c == 'B' {
        DataType::TBYTE
    } else if c == 'L' {
        DataType::TLOGICAL
    } else if c == 'A' {
        DataType::TSTRING
    } else if c == 'I' {
        DataType::TSHORT
    } else if c == 'J' {
        DataType::TLONG
    } else if c == 'E' {
        DataType::TFLOAT
    } else if c == 'D' {
        DataType::TDOUBLE
    } else if c == 'C' {
        DataType::TCOMPLEX
    } else {
        DataType::TDBLCOMPLEX
    }
}

} // verus!

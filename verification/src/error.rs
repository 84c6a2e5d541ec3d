use vstd::prelude::*;
use vstd::string::*;

verus! {

/// The status code of a successful cfitsio call.
pub const STATUS_OK: i32 = 0;

/// cfitsio could not open the named file.
pub const FILE_NOT_OPENED: i32 = 104;

/// cfitsio could not create the named file.
pub const FILE_NOT_CREATED: i32 = 105;

/// A move past the last HDU of the file.
pub const END_OF_FILE: i32 = 107;

/// A write to a file opened read-only.
pub const READONLY_FILE: i32 = 112;

/// A primary header written where the file already has one.
pub const HEADER_NOT_EMPTY: i32 = 201;

/// An illegal BITPIX value.
pub const BAD_BITPIX: i32 = 211;

/// An illegal NAXIS value.
pub const BAD_NAXIS: i32 = 212;

/// An illegal NAXISn value.
pub const BAD_NAXES: i32 = 213;

/// An illegal TFIELDS value.
pub const BAD_TFIELDS: i32 = 216;

/// A negative number of table rows.
pub const NEG_ROWS: i32 = 218;

/// A first HDU that is not a primary array.
pub const NO_SIMPLE: i32 = 221;

/// An HDU that is not a binary table.
pub const NOT_BTABLE: i32 = 227;

/// An HDU type that is not a table.
pub const NOT_TABLE: i32 = 235;

/// A TFORM value that names no data type.
pub const BAD_TFORM: i32 = 261;

/// An HDU that does not exist.
pub const BAD_HDU_NUM: i32 = 301;

/// An error reported by cfitsio: its status code and the text that goes
/// with that code.
#[derive(Debug, PartialEq, Eq)]
pub struct FitsError {
    pub status: i32,
    pub message: String,
}

/// The text that cfitsio's `ffgerr` gives for a status code.
pub open spec fn status_text(status: i32) -> Seq<char> {
    match status {
        0 => "OK - no error"@,
        1 => "non-CFITSIO program error"@,
        101 => "same input and output files"@,
        103 => "attempt to open too many files"@,
        104 => "could not open the named file"@,
        105 => "couldn't create the named file"@,
        106 => "error writing to FITS file"@,
        107 => "tried to move past end of file"@,
        108 => "error reading from FITS file"@,
        110 => "could not close the file"@,
        111 => "array dimensions too big"@,
        112 => "cannot write to readonly file"@,
        113 => "could not allocate memory"@,
        114 => "invalid fitsfile pointer"@,
        115 => "NULL input pointer"@,
        116 => "error seeking file position"@,
        121 => "invalid URL prefix"@,
        122 => "too many I/O drivers"@,
        123 => "I/O driver init failed"@,
        124 => "no I/O driver for this URLtype"@,
        125 => "parse error in input file URL"@,
        126 => "parse error in range list"@,
        201 => "header already has keywords"@,
        202 => "keyword not found in header"@,
        203 => "keyword record # out of bounds"@,
        204 => "keyword value is undefined"@,
        205 => "string missing closing quote"@,
        206 => "error in indexed keyword name"@,
        207 => "illegal character in keyword"@,
        208 => "required keywords out of order"@,
        209 => "keyword value not positive int"@,
        210 => "END keyword not found"@,
        211 => "illegal BITPIX keyword value"@,
        212 => "illegal NAXIS keyword value"@,
        213 => "illegal NAXISn keyword value"@,
        214 => "illegal PCOUNT keyword value"@,
        215 => "illegal GCOUNT keyword value"@,
        216 => "illegal TFIELDS keyword value"@,
        217 => "negative table row size"@,
        218 => "negative number of rows"@,
        219 => "named column not found"@,
        220 => "illegal SIMPLE keyword value"@,
        221 => "first keyword not SIMPLE"@,
        222 => "second keyword not BITPIX"@,
        223 => "third keyword not NAXIS"@,
        224 => "missing NAXISn keywords"@,
        225 => "first keyword not XTENSION"@,
        226 => "CHDU not an ASCII table"@,
        227 => "CHDU not a binary table"@,
        228 => "PCOUNT keyword not found"@,
        229 => "GCOUNT keyword not found"@,
        230 => "TFIELDS keyword not found"@,
        231 => "missing TBCOLn keyword"@,
        232 => "missing TFORMn keyword"@,
        233 => "CHDU not an IMAGE extension"@,
        234 => "illegal TBCOLn keyword value"@,
        235 => "CHDU not a table extension"@,
        236 => "column exceeds width of table"@,
        237 => "more than 1 matching column name"@,
        241 => "row width not = field widths"@,
        251 => "unknown FITS extension type"@,
        252 => "1st key not SIMPLE or XTENSION"@,
        253 => "END keyword is not blank"@,
        254 => "Header fill area not blank"@,
        255 => "Data fill area invalid"@,
        261 => "illegal TFORM format code"@,
        262 => "unknown TFORM datatype code"@,
        263 => "illegal TDIMn keyword value"@,
        264 => "invalid BINTABLE heap pointer"@,
        301 => "illegal HDU number"@,
        302 => "column number < 1 or > tfields"@,
        304 => "negative byte address"@,
        306 => "negative number of elements"@,
        307 => "bad first row number"@,
        308 => "bad first element number"@,
        309 => "not an ASCII (A) column"@,
        310 => "not a logical (L) column"@,
        311 => "bad ASCII table datatype"@,
        312 => "bad binary table datatype"@,
        314 => "null value not defined"@,
        317 => "not a variable length column"@,
        320 => "illegal number of dimensions"@,
        321 => "1st pixel no. > last pixel no."@,
        322 => "BSCALE or TSCALn = 0."@,
        323 => "illegal BLANK keyword value"@,
        401 => "bad int to string conversion"@,
        402 => "bad float to string conversion"@,
        403 => "keyword value not integer"@,
        404 => "keyword value not logical"@,
        405 => "keyword value not floating pt"@,
        406 => "keyword value not double"@,
        407 => "bad string to int conversion"@,
        408 => "bad string to float conversion"@,
        409 => "bad string to double convert"@,
        410 => "illegal datatype code value"@,
        411 => "illegal no. of decimals"@,
        412 => "datatype conversion overflow"@,
        413 => "error compressing image"@,
        414 => "error uncompressing image"@,
        420 => "bad date or time conversion"@,
        _ => "unknown error status"@,
    }
}

/// The text of a status code, as `status_text` gives it.
pub fn status_to_string(status: i32) -> (text: String)
    ensures
        text@ == status_text(status),
{
    match status {
        0 => String::from_str("OK - no error"),
        1 => String::from_str("non-CFITSIO program error"),
        101 => String::from_str("same input and output files"),
        103 => String::from_str("attempt to open too many files"),
        104 => String::from_str("could not open the named file"),
        105 => String::from_str("couldn't create the named file"),
        106 => String::from_str("error writing to FITS file"),
        107 => String::from_str("tried to move past end of file"),
        108 => String::from_str("error reading from FITS file"),
        110 => String::from_str("could not close the file"),
        111 => String::from_str("array dimensions too big"),
        112 => String::from_str("cannot write to readonly file"),
        113 => String::from_str("could not allocate memory"),
        114 => String::from_str("invalid fitsfile pointer"),
        115 => String::from_str("NULL input pointer"),
        116 => String::from_str("error seeking file position"),
        121 => String::from_str("invalid URL prefix"),
        122 => String::from_str("too many I/O drivers"),
        123 => String::from_str("I/O driver init failed"),
        124 => String::from_str("no I/O driver for this URLtype"),
        125 => String::from_str("parse error in input file URL"),
        126 => String::from_str("parse error in range list"),
        201 => String::from_str("header already has keywords"),
        202 => String::from_str("keyword not found in header"),
        203 => String::from_str("keyword record # out of bounds"),
        204 => String::from_str("keyword value is undefined"),
        205 => String::from_str("string missing closing quote"),
        206 => String::from_str("error in indexed keyword name"),
        207 => String::from_str("illegal character in keyword"),
        208 => String::from_str("required keywords out of order"),
        209 => String::from_str("keyword value not positive int"),
        210 => String::from_str("END keyword not found"),
        211 => String::from_str("illegal BITPIX keyword value"),
        212 => String::from_str("illegal NAXIS keyword value"),
        213 => String::from_str("illegal NAXISn keyword value"),
        214 => String::from_str("illegal PCOUNT keyword value"),
        215 => String::from_str("illegal GCOUNT keyword value"),
        216 => String::from_str("illegal TFIELDS keyword value"),
        217 => String::from_str("negative table row size"),
        218 => String::from_str("negative number of rows"),
        219 => String::from_str("named column not found"),
        220 => String::from_str("illegal SIMPLE keyword value"),
        221 => String::from_str("first keyword not SIMPLE"),
        222 => String::from_str("second keyword not BITPIX"),
        223 => String::from_str("third keyword not NAXIS"),
        224 => String::from_str("missing NAXISn keywords"),
        225 => String::from_str("first keyword not XTENSION"),
        226 => String::from_str("CHDU not an ASCII table"),
        227 => String::from_str("CHDU not a binary table"),
        228 => String::from_str("PCOUNT keyword not found"),
        229 => String::from_str("GCOUNT keyword not found"),
        230 => String::from_str("TFIELDS keyword not found"),
        231 => String::from_str("missing TBCOLn keyword"),
        232 => String::from_str("missing TFORMn keyword"),
        233 => String::from_str("CHDU not an IMAGE extension"),
        234 => String::from_str("illegal TBCOLn keyword value"),
        235 => String::from_str("CHDU not a table extension"),
        236 => String::from_str("column exceeds width of table"),
        237 => String::from_str("more than 1 matching column name"),
        241 => String::from_str("row width not = field widths"),
        251 => String::from_str("unknown FITS extension type"),
        252 => String::from_str("1st key not SIMPLE or XTENSION"),
        253 => String::from_str("END keyword is not blank"),
        254 => String::from_str("Header fill area not blank"),
        255 => String::from_str("Data fill area invalid"),
        261 => String::from_str("illegal TFORM format code"),
        262 => String::from_str("unknown TFORM datatype code"),
        263 => String::from_str("illegal TDIMn keyword value"),
        264 => String::from_str("invalid BINTABLE heap pointer"),
        301 => String::from_str("illegal HDU number"),
        302 => String::from_str("column number < 1 or > tfields"),
        304 => String::from_str("negative byte address"),
        306 => String::from_str("negative number of elements"),
        307 => String::from_str("bad first row number"),
        308 => String::from_str("bad first element number"),
        309 => String::from_str("not an ASCII (A) column"),
        310 => String::from_str("not a logical (L) column"),
        311 => String::from_str("bad ASCII table datatype"),
        312 => String::from_str("bad binary table datatype"),
        314 => String::from_str("null value not defined"),
        317 => String::from_str("not a variable length column"),
        320 => String::from_str("illegal number of dimensions"),
        321 => String::from_str("1st pixel no. > last pixel no."),
        322 => String::from_str("BSCALE or TSCALn = 0."),
        323 => String::from_str("illegal BLANK keyword value"),
        401 => String::from_str("bad int to string conversion"),
        402 => String::from_str("bad float to string conversion"),
        403 => String::from_str("keyword value not integer"),
        404 => String::from_str("keyword value not logical"),
        405 => String::from_str("keyword value not floating pt"),
        406 => String::from_str("keyword value not double"),
        407 => String::from_str("bad string to int conversion"),
        408 => String::from_str("bad string to float conversion"),
        409 => String::from_str("bad string to double convert"),
        410 => String::from_str("illegal datatype code value"),
        411 => String::from_str("illegal no. of decimals"),
        412 => String::from_str("datatype conversion overflow"),
        413 => String::from_str("error compressing image"),
        414 => String::from_str("error uncompressing image"),
        420 => String::from_str("bad date or time conversion"),
        _ => String::from_str("unknown error status"),
    }
}

/// An error with this status and the text that goes with it.
pub open spec fn is_status_error(e: FitsError, status: i32) -> bool {
    e.status == status && e.message@ == status_text(status)
}

/// Turns a cfitsio status into a `Result`: `Ok(value)` when the status is
/// zero, and otherwise the error for that status.
pub fn fits_try<T>(status: i32, value: T) -> (r: Result<T, FitsError>)
    ensures
        status == 0 ==> r == Ok::<T, FitsError>(value),
        status != 0 ==> (r matches Err(e) && is_status_error(e, status)),
{
    if status == 0 {
        Ok(value)
    } else {
        Err(FitsError { status, message: status_to_string(status) })
    }
}

} // verus!

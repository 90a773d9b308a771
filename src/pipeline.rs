//! The OCR pipeline: prepare, detect words, group lines, recognize, assemble.
use vstd::prelude::*;
use crate::error::OcrError;
use crate::image::{decode_image, decoded_image_of, DecodedImage};
use ocrs::{ImageSource, ImageSourceError, OcrEngine, OcrInput};
use rten_imageproc::RotatedRect;

verus! {

#[verifier::external_type_specification]
#[verifier::external_body]
pub struct ExOcrEngine(OcrEngine);

#[verifier::external_type_specification]
#[verifier::external_body]
pub struct ExOcrInput(OcrInput);

#[verifier::external_type_specification]
#[verifier::external_body]
pub struct ExImageSource<'a>(ImageSource<'a>);

#[verifier::external_type_specification]
#[verifier::external_body]
pub struct ExImageSourceError(ImageSourceError);

#[verifier::external_type_specification]
#[verifier::external_body]
pub struct ExRotatedRect(RotatedRect);

#[verifier::external_type_specification]
#[verifier::external_body]
pub struct ExAnyhowError(anyhow::Error);

/// Relies on ocrs::ImageSource::from_bytes, which refuses a zero pixel count
/// and accepts a buffer of three bytes per pixel (it multiplies the
/// dimensions as `u32`, hence the bound).
#[verifier::external_body]
fn image_source<'a>(pixels: &'a [u8], width: u32, height: u32) -> (r: Result<ImageSource<'a>, ImageSourceError>)
    requires
        width * height <= u32::MAX,
    ensures
        width * height == 0 ==> r is Err,
        width * height > 0 && pixels@.len() == width * height * 3 ==> r is Ok,
{
    ImageSource::from_bytes(pixels, (width, height))
}

/// Relies on ocrs::OcrEngine::prepare_input, which always succeeds on an
/// image source.
#[verifier::external_body]
fn prepare_input(engine: &OcrEngine, source: ImageSource) -> (r: Result<OcrInput, anyhow::Error>)
    ensures
        r is Ok,
{
    engine.prepare_input(source)
}

/// Relies on ocrs::OcrEngine::detect_words: the word rectangles found, or an
/// error when detection fails.
#[verifier::external_body]
fn detect_words(engine: &OcrEngine, input: &OcrInput) -> (r: Result<Vec<RotatedRect>, anyhow::Error>) {
    engine.detect_words(input)
}

/// Relies on ocrs::OcrEngine::find_text_lines: words grouped into lines in
/// reading order.
#[verifier::external_body]
fn find_text_lines(engine: &OcrEngine, input: &OcrInput, words: &[RotatedRect]) -> (r: Vec<Vec<RotatedRect>>) {
    engine.find_text_lines(input, words)
}

/// Relies on ocrs::OcrEngine::recognize_text, each recognized line written
/// out as its characters; `None` where a line held no text. It panics on a
/// line without words, hence the requirement.
#[verifier::external_body]
fn recognize_text(engine: &OcrEngine, input: &OcrInput, lines: &[Vec<RotatedRect>]) -> (r: Result<Vec<Option<String>>, anyhow::Error>)
    requires
        forall|i: int| 0 <= i < lines@.len() ==> (#[trigger] lines@[i])@.len() > 0,
{
    engine.recognize_text(input, lines).map(|v| v.into_iter().map(|l| l.map(|t| t.to_string())).collect())
}

/// A line without text: absent, or present and empty.
pub open spec fn line_is_blank(line: Option<String>) -> bool {
    match line {
        Some(s) => s@.len() == 0,
        None => true,
    }
}

/// The lines that carry text, in order: absent and empty lines are dropped.
pub open spec fn kept_lines(lines: Seq<Option<String>>) -> Seq<Seq<char>>
    decreases lines.len(),
{
    if lines.len() == 0 {
        seq![]
    } else {
        let earlier = kept_lines(lines.drop_last());
        match lines.last() {
            Some(s) => if s@.len() > 0 { earlier.push(s@) } else { earlier },
            None => earlier,
        }
    }
}

/// Lines joined with a line break between each two.
pub open spec fn joined(lines: Seq<Seq<char>>) -> Seq<char>
    decreases lines.len(),
{
    if lines.len() == 0 {
        seq![]
    } else if lines.len() == 1 {
        lines[0]
    } else {
        joined(lines.drop_last()) + seq!['\n'] + lines.last()
    }
}

/// The text of a page: its kept lines, in recognition order, one per line.
pub open spec fn assembled(lines: Seq<Option<String>>) -> Seq<char> {
    joined(kept_lines(lines))
}

/// Assembles the recognized lines into the page's text, dropping lines
/// without text and keeping the order of lines and of characters.
pub fn assemble_text(lines: &Vec<Option<String>>) -> (r: String)
    ensures
        r@ == assembled(lines@),
{
    let mut text = String::new();
    let mut started = false;
    let mut i: usize = 0;
    while i < lines.len()
        invariant
            i <= lines@.len(),
            started == (kept_lines(lines@.subrange(0, i as int)).len() > 0),
            text@ == joined(kept_lines(lines@.subrange(0, i as int))),
        decreases lines@.len() - i,
    {
        let ghost before = kept_lines(lines@.subrange(0, i as int));
        proof {
            assert(lines@.subrange(0, i as int + 1).drop_last() =~= lines@.subrange(0, i as int));
            assert(lines@.subrange(0, i as int + 1).last() == lines@[i as int]);
        }
        match &lines[i] {
            Some(line) => {
                if line.unicode_len() > 0 {
                    proof {
                        assert(before.push(line@).drop_last() =~= before);
                    }
                    if started {
                        text.append("\n");
                        proof {
                            reveal_strlit("\n");
                            assert("\n"@ =~= seq!['\n']);
                        }
                    }
                    text.append(line.as_str());
                    started = true;
                }
            },
            None => {},
        }
        i = i + 1;
    }
    assert(lines@.subrange(0, lines@.len() as int) =~= lines@);
    text
}

/// Whether every line holds at least one word.
fn all_lines_have_words(lines: &Vec<Vec<RotatedRect>>) -> (r: bool)
    ensures
        r == forall|i: int| 0 <= i < lines@.len() ==> (#[trigger] lines@[i])@.len() > 0,
{
    let mut i: usize = 0;
    while i < lines.len()
        invariant
            i <= lines@.len(),
            forall|j: int| 0 <= j < i ==> (#[trigger] lines@[j])@.len() > 0,
        decreases lines@.len() - i,
    {
        if lines[i].len() == 0 {
            return false;
        }
        i = i + 1;
    }
    true
}

/// Dimensions the engine refuses: no pixels at all, or more pixels than its
/// 32-bit pixel count can hold.
pub open spec fn degenerate(width: u32, height: u32) -> bool {
    width == 0 || height == 0 || width * height > u32::MAX
}

/// Runs the pipeline on a decoded image. Degenerate dimensions are refused
/// before the engine sees the image; any stage failure ends the pipeline with
/// one error and no partial text; success is the assembly of some recognized
/// lines.
pub fn extract_text(engine: &OcrEngine, image: &DecodedImage) -> (r: Result<String, OcrError>)
    requires
        image.wf(),
    ensures
        degenerate(image.width, image.height) <==> r == Err::<String, OcrError>(OcrError::Prepare),
        r matches Err(e) ==> e == OcrError::Prepare || e == OcrError::Pipeline,
        r matches Ok(t) ==> exists|lines: Seq<Option<String>>| t@ == assembled(lines),
{
    let w = image.width;
    let h = image.height;
    proof {
        assert(w as int * h as int <= u32::MAX as int * u32::MAX as int) by (nonlinear_arith)
            requires w <= u32::MAX, h <= u32::MAX;
    }
    if w == 0 || h == 0 || w as u64 * h as u64 > u32::MAX as u64 {
        return Err(OcrError::Prepare);
    }
    proof {
        assert(w as int * h as int > 0) by (nonlinear_arith)
            requires w > 0, h > 0;
    }
    let source = match image_source(image.pixels.as_slice(), w, h) {
        Ok(s) => s,
        Err(_) => return Err(OcrError::Prepare),
    };
    let input = match prepare_input(engine, source) {
        Ok(input) => input,
        Err(_) => return Err(OcrError::Prepare),
    };
    let words = match detect_words(engine, &input) {
        Ok(words) => words,
        Err(_) => return Err(OcrError::Pipeline),
    };
    let lines = find_text_lines(engine, &input, words.as_slice());
    if !all_lines_have_words(&lines) {
        return Err(OcrError::Pipeline);
    }
    let recognized = match recognize_text(engine, &input, lines.as_slice()) {
        Ok(recognized) => recognized,
        Err(_) => return Err(OcrError::Pipeline),
    };
    let text = assemble_text(&recognized);
    assert(text@ == assembled(recognized@));
    Ok(text)
}

/// Decodes an uploaded buffer and runs the pipeline on it. A buffer that
/// does not decode is a decode error, with no call into the engine.
pub fn recognize_upload(engine: &OcrEngine, bytes: &[u8]) -> (r: Result<String, OcrError>)
    ensures
        decoded_image_of(bytes@) is None <==> r == Err::<String, OcrError>(OcrError::Decode),
        r == Err::<String, OcrError>(OcrError::Prepare)
            <==> (decoded_image_of(bytes@) matches Some((_, w, h)) && degenerate(w as u32, h as u32)),
        r matches Ok(t) ==> exists|lines: Seq<Option<String>>| t@ == assembled(lines),
{
    let image = match decode_image(bytes) {
        Ok(image) => image,
        Err(e) => return Err(e),
    };
    extract_text(engine, &image)
}

} // verus!

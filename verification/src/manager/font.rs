//! Extra fonts from the font folder, handed to egui.

use vstd::prelude::*;
use vstd::string::*;
use egui::Context;
use crate::text::{ascii_lower, split_file_name, str_eq_ignore_ascii_case, eq_ignore_ascii_case, stem_of, has_extension, extension_of};

verus! {

/// Where a newly added font goes among the fonts of its family.
#[derive(Clone, Copy, Debug, PartialEq, Eq, Structural)]
pub enum FontPlacement {
    /// Before every font already there: its glyphs win.
    Highest,
    /// After every font already there: a fallback.
    Lowest,
}

/// Hands the font `data` to egui under `name`, in a font family of that
/// name, at `placement` among the fonts of that family
/// (`Context::add_font`). It changes the context's fonts only; nothing is
/// stated of it.
#[verifier::external_body]
fn register_font(ctx: &Context, name: &str, data: &Vec<u8>, placement: FontPlacement) {
    let priority = match placement {
        FontPlacement::Highest => egui::FontPriority::Highest,
        FontPlacement::Lowest => egui::FontPriority::Lowest,
    };
    ctx.add_font(egui::FontInsert::new(
        name,
        egui::FontData::from_owned(data.clone()),
        vec![egui::InsertFontFamily { family: egui::FontFamily::Name(name.into()), priority }],
    ));
}

/// A font file's name (its stem) and contents.
#[derive(Clone, Debug)]
pub struct FontData {
    pub name: String,
    pub data: Vec<u8>,
}

impl FontData {
    /// Hands the font to egui, in the family of its name, before any font
    /// already there.
    pub fn add(&self, ctx: &Context) {
        register_font(ctx, self.name.as_str(), &self.data, FontPlacement::Highest);
    }
}

/// The fonts read from the font folder.
#[derive(Debug)]
pub struct Fonts(pub Vec<FontData>);

impl Fonts {
    /// No fonts.
    pub fn new() -> (f: Self)
        ensures
            f.0@.len() == 0,
    {
        Fonts(Vec::new())
    }

    /// Adds a font read from the folder.
    pub fn push(&mut self, font: FontData)
        ensures
            final(self).0@ == old(self).0@.push(font),
    {
        self.0.push(font);
    }

    /// Hands every font to egui, in order.
    pub fn add_all(&self, ctx: &Context) {
        let mut i: usize = 0;
        while i < self.0.len()
            invariant
                i <= self.0@.len(),
            decreases self.0@.len() - i,
        {
            self.0[i].add(ctx);
            i = i + 1;
        }
    }

    /// The names of the fonts, in order.
    pub fn names(&self) -> (r: Vec<String>)
        ensures
            r@.len() == self.0@.len(),
            forall|i: int| 0 <= i < r@.len() ==> #[trigger] r@[i]@ == self.0@[i].name@,
    {
        let mut r: Vec<String> = Vec::new();
        let mut i: usize = 0;
        while i < self.0.len()
            invariant
                i <= self.0@.len(),
                r@.len() == i,
                forall|j: int| 0 <= j < i ==> #[trigger] r@[j]@ == self.0@[j].name@,
            decreases self.0@.len() - i,
        {
            r.push(self.0[i].name.clone());
            i = i + 1;
        }
        r
    }
}

/// A font file: its extension is `ttf` or `otf`, in any case.
pub open spec fn is_font_file(file_name: Seq<char>) -> bool {
    has_extension(file_name) && (eq_ignore_ascii_case(extension_of(file_name), "ttf"@)
        || eq_ignore_ascii_case(extension_of(file_name), "otf"@))
}

/// A file is a font file exactly when it has a three-letter extension
/// that reads `ttf` or `otf` once its ASCII capitals are made small, so
/// `x.TTF`, `x.Otf` and `x.otf` alike.
pub proof fn lemma_font_extension_in_any_case(file_name: Seq<char>)
    ensures
        is_font_file(file_name) <==> {
            let x = extension_of(file_name);
            &&& has_extension(file_name)
            &&& x.len() == 3
            &&& ascii_lower(x[0]) == 't' as u32 || ascii_lower(x[0]) == 'o' as u32
            &&& ascii_lower(x[1]) == 't' as u32
            &&& ascii_lower(x[2]) == 'f' as u32
        },
{
    reveal_strlit("ttf");
    reveal_strlit("otf");
    let x = extension_of(file_name);
    if x.len() == 3 {
        assert(eq_ignore_ascii_case(x, "ttf"@) <==> (ascii_lower(x[0]) == ascii_lower('t') && ascii_lower(x[1]) == ascii_lower('t') && ascii_lower(x[2]) == ascii_lower('f')));
        assert(eq_ignore_ascii_case(x, "otf"@) <==> (ascii_lower(x[0]) == ascii_lower('o') && ascii_lower(x[1]) == ascii_lower('t') && ascii_lower(x[2]) == ascii_lower('f')));
    }
}

/// The font name of a file in the font folder: its stem, when it is a font file.
pub fn font_file_stem(file_name: &str) -> (r: Option<String>)
    ensures
        r is Some == is_font_file(file_name@),
        r is Some ==> r->0@ == stem_of(file_name@),
{
    let (stem, ext) = split_file_name(file_name);
    match ext {
        Some(e) => {
            if str_eq_ignore_ascii_case(e.as_str(), "ttf") || str_eq_ignore_ascii_case(e.as_str(), "otf") {
                Some(stem)
            } else {
                None
            }
        },
        None => None,
    }
}

} // verus!

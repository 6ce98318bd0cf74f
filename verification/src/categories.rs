//! The three file categories and the table of extensions belonging to each.
//!
//! The table is built once at startup and read-only afterwards. A lower-cased
//! extension is classified by scanning the categories in a fixed order; the
//! first category whose set holds the extension wins.

use vstd::prelude::*;

verus! {

/// One of the closed set of file categories.
#[derive(Clone, Copy, PartialEq, Eq, Structural, Debug)]
pub enum Category {
    Images,
    Documents,
    Audio,
}

/// The name of the category's destination folder.
pub open spec fn spec_category_name(c: Category) -> Seq<char> {
    match c {
        Category::Images => "Images"@,
        Category::Documents => "Documents"@,
        Category::Audio => "Audio"@,
    }
}

impl Category {
    /// The folder name of the category.
    pub fn name(&self) -> (r: &'static str)
        ensures
            r@ == spec_category_name(*self),
    {
        match self {
            Category::Images => "Images",
            Category::Documents => "Documents",
            Category::Audio => "Audio",
        }
    }
}

/// The extensions filed under Images.
pub open spec fn spec_image_exts() -> Seq<Seq<char>> {
    seq!["jpg"@, "jpeg"@, "png"@, "gif"@, "bmp"@, "tiff"@, "webp"@]
}

/// The extensions filed under Documents.
pub open spec fn spec_document_exts() -> Seq<Seq<char>> {
    seq!["pdf"@, "doc"@, "docx"@, "txt"@, "rtf"@, "odt"@, "xls"@, "xlsx"@, "ppt"@, "pptx"@]
}

/// The extensions filed under Audio.
pub open spec fn spec_audio_exts() -> Seq<Seq<char>> {
    seq!["mp3"@, "wav"@, "ogg"@, "flac"@, "aac"@, "wma"@]
}

/// The extension set of a category.
pub open spec fn spec_extensions_of(c: Category) -> Seq<Seq<char>> {
    match c {
        Category::Images => spec_image_exts(),
        Category::Documents => spec_document_exts(),
        Category::Audio => spec_audio_exts(),
    }
}

/// Whether `ext` lies in the extension set of `c`.
pub open spec fn spec_in_category(ext: Seq<char>, c: Category) -> bool {
    spec_extensions_of(c).contains(ext)
}

/// The category of a lower-cased extension: the first category, in the order
/// Images, Documents, Audio, whose set holds it; `None` where none does.
pub open spec fn spec_category_of(ext: Seq<char>) -> Option<Category> {
    if spec_in_category(ext, Category::Images) {
        Some(Category::Images)
    } else if spec_in_category(ext, Category::Documents) {
        Some(Category::Documents)
    } else if spec_in_category(ext, Category::Audio) {
        Some(Category::Audio)
    } else {
        None
    }
}

/// No extension lies in two categories' sets: the sets are pairwise
/// disjoint, so the order the classifier scans them in never decides.
pub proof fn lemma_extension_sets_disjoint(ext: Seq<char>, c1: Category, c2: Category)
    requires
        spec_in_category(ext, c1),
        spec_in_category(ext, c2),
    ensures
        c1 == c2,
{
    reveal_strlit("jpg");
    reveal_strlit("jpeg");
    reveal_strlit("png");
    reveal_strlit("gif");
    reveal_strlit("bmp");
    reveal_strlit("tiff");
    reveal_strlit("webp");
    reveal_strlit("pdf");
    reveal_strlit("doc");
    reveal_strlit("docx");
    reveal_strlit("txt");
    reveal_strlit("rtf");
    reveal_strlit("odt");
    reveal_strlit("xls");
    reveal_strlit("xlsx");
    reveal_strlit("ppt");
    reveal_strlit("pptx");
    reveal_strlit("mp3");
    reveal_strlit("wav");
    reveal_strlit("ogg");
    reveal_strlit("flac");
    reveal_strlit("aac");
    reveal_strlit("wma");
    assert("jpg"@ =~= seq!['j', 'p', 'g']);
    assert("jpeg"@ =~= seq!['j', 'p', 'e', 'g']);
    assert("png"@ =~= seq!['p', 'n', 'g']);
    assert("gif"@ =~= seq!['g', 'i', 'f']);
    assert("bmp"@ =~= seq!['b', 'm', 'p']);
    assert("tiff"@ =~= seq!['t', 'i', 'f', 'f']);
    assert("webp"@ =~= seq!['w', 'e', 'b', 'p']);
    assert("pdf"@ =~= seq!['p', 'd', 'f']);
    assert("doc"@ =~= seq!['d', 'o', 'c']);
    assert("docx"@ =~= seq!['d', 'o', 'c', 'x']);
    assert("txt"@ =~= seq!['t', 'x', 't']);
    assert("rtf"@ =~= seq!['r', 't', 'f']);
    assert("odt"@ =~= seq!['o', 'd', 't']);
    assert("xls"@ =~= seq!['x', 'l', 's']);
    assert("xlsx"@ =~= seq!['x', 'l', 's', 'x']);
    assert("ppt"@ =~= seq!['p', 'p', 't']);
    assert("pptx"@ =~= seq!['p', 'p', 't', 'x']);
    assert("mp3"@ =~= seq!['m', 'p', '3']);
    assert("wav"@ =~= seq!['w', 'a', 'v']);
    assert("ogg"@ =~= seq!['o', 'g', 'g']);
    assert("flac"@ =~= seq!['f', 'l', 'a', 'c']);
    assert("aac"@ =~= seq!['a', 'a', 'c']);
    assert("wma"@ =~= seq!['w', 'm', 'a']);
    let s1 = spec_extensions_of(c1);
    let s2 = spec_extensions_of(c2);
    let i = choose|i: int| 0 <= i < s1.len() && s1[i] == ext;
    let j = choose|j: int| 0 <= j < s2.len() && s2[j] == ext;
    assert(s1[i] == ext);
    assert(s2[j] == ext);
}

/// An extension that lies in some category's set is classified into exactly
/// that category.
pub proof fn lemma_in_category_is_classified(ext: Seq<char>, c: Category)
    requires
        spec_in_category(ext, c),
    ensures
        spec_category_of(ext) == Some(c),
{
    assert forall|other: Category| other != c implies !spec_in_category(ext, other) by {
        if spec_in_category(ext, other) {
            lemma_extension_sets_disjoint(ext, c, other);
        }
    }
    match c {
        Category::Images => {
        },
        Category::Documents => {
            assert(!spec_in_category(ext, Category::Images));
        },
        Category::Audio => {
            assert(!spec_in_category(ext, Category::Images));
            assert(!spec_in_category(ext, Category::Documents));
        },
    }
}

/// The table mapping each category to its set of lower-case extensions.
pub struct ExtensionTable {
    pub images: Vec<String>,
    pub documents: Vec<String>,
    pub audio: Vec<String>,
}

/// The character sequences of a vector of strings, in order.
pub open spec fn spec_views_of(v: Seq<String>) -> Seq<Seq<char>> {
    v.map_values(|s: String| s@)
}

impl ExtensionTable {
    /// The table holds exactly the fixed extension sets.
    pub open spec fn wf(&self) -> bool {
        &&& spec_views_of(self.images@) == spec_image_exts()
        &&& spec_views_of(self.documents@) == spec_document_exts()
        &&& spec_views_of(self.audio@) == spec_audio_exts()
    }

    /// The category of a lower-cased extension, scanning Images, then
    /// Documents, then Audio; `None` where no set holds it.
    pub fn classify(&self, ext: &String) -> (r: Option<Category>)
        requires
            self.wf(),
        ensures
            r == spec_category_of(ext@),
    {
        if contains_ext(&self.images, ext) {
            Some(Category::Images)
        } else if contains_ext(&self.documents, ext) {
            Some(Category::Documents)
        } else if contains_ext(&self.audio, ext) {
            Some(Category::Audio)
        } else {
            None
        }
    }
}

/// Whether one of the strings in `list` holds the same characters as `ext`.
fn contains_ext(list: &Vec<String>, ext: &String) -> (r: bool)
    ensures
        r == spec_views_of(list@).contains(ext@),
{
    let n = list.len();
    let mut i: usize = 0;
    while i < n
        invariant
            n == list@.len(),
            0 <= i <= n,
            forall|j: int| 0 <= j < i ==> list@[j]@ != ext@,
        decreases n - i,
    {
        if list[i] == *ext {
            proof {
                assert(spec_views_of(list@)[i as int] == ext@);
            }
            return true;
        }
        i += 1;
    }
    proof {
        assert forall|j: int| 0 <= j < spec_views_of(list@).len() implies spec_views_of(list@)[j]
            != ext@ by {
            assert(spec_views_of(list@)[j] == list@[j]@);
        }
    }
    false
}

/// The extension table, with the three fixed sets in their lower-case form.
pub fn get_file_type_mappings() -> (r: ExtensionTable)
    ensures
        r.wf(),
{
    let mut images: Vec<String> = Vec::new();
    images.push(String::from_str("jpg"));
    images.push(String::from_str("jpeg"));
    images.push(String::from_str("png"));
    images.push(String::from_str("gif"));
    images.push(String::from_str("bmp"));
    images.push(String::from_str("tiff"));
    images.push(String::from_str("webp"));
    let mut documents: Vec<String> = Vec::new();
    documents.push(String::from_str("pdf"));
    documents.push(String::from_str("doc"));
    documents.push(String::from_str("docx"));
    documents.push(String::from_str("txt"));
    documents.push(String::from_str("rtf"));
    documents.push(String::from_str("odt"));
    documents.push(String::from_str("xls"));
    documents.push(String::from_str("xlsx"));
    documents.push(String::from_str("ppt"));
    documents.push(String::from_str("pptx"));
    let mut audio: Vec<String> = Vec::new();
    audio.push(String::from_str("mp3"));
    audio.push(String::from_str("wav"));
    audio.push(String::from_str("ogg"));
    audio.push(String::from_str("flac"));
    audio.push(String::from_str("aac"));
    audio.push(String::from_str("wma"));
    let table = ExtensionTable { images, documents, audio };
    proof {
        assert(spec_views_of(table.images@) =~= spec_image_exts());
        assert(spec_views_of(table.documents@) =~= spec_document_exts());
        assert(spec_views_of(table.audio@) =~= spec_audio_exts());
    }
    table
}

} // verus!

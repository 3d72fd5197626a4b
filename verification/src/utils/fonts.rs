//! Bookkeeping of the fonts the text overlays can draw with: the merged
//! list of system fonts and fonts from the user's font directory, lookup by
//! name, and the display names derived from font file paths.

use vstd::prelude::*;

use crate::utils::str_eq;

verus! {

/// Where a font came from: the system's font database, or the user's own
/// font directory.
#[derive(Debug, Clone, Copy, PartialEq, Eq, Structural)]
pub enum FontType {
    System,
    Needle,
}

/// One available font: its name (a system family name, or a file path under
/// the user's font directory) and its origin.
#[derive(Debug, Clone, PartialEq)]
pub struct Font {
    pub font: String,
    pub font_type: FontType,
}

/// A font-family query handed to the system font database.
#[derive(Debug, Clone, PartialEq)]
pub enum FontTypes {
    Italic,
    Bold,
    Oblique,
    Monospace,
    Family(String),
}

/// The font registry. `available_fonts` stays `None` until a query first
/// fills it, and is filled at most once.
#[derive(Debug)]
pub struct Fonts {
    pub available_fonts: Option<Vec<Font>>,
}

/// Field-wise equality of two font entries.
pub open spec fn font_eq(a: Font, b: Font) -> bool {
    a.font@ == b.font@ && a.font_type == b.font_type
}

/// The merged registry list built from a system query and the user's font
/// directory: every system font first, in order, then every user font.
pub open spec fn spec_font_list(sys: Seq<String>, needle: Seq<String>, r: Seq<Font>) -> bool {
    &&& r.len() == sys.len() + needle.len()
    &&& forall|i: int|
        0 <= i < sys.len() ==> (#[trigger] r[i]).font@ == sys[i]@ && r[i].font_type
            == FontType::System
    &&& forall|i: int|
        sys.len() <= i < r.len() ==> (#[trigger] r[i]).font@ == needle[i - sys.len()]@
            && r[i].font_type == FontType::Needle
}

/// The index one past the last `/` of `s`, or zero when `s` has none.
pub open spec fn last_slash(s: Seq<char>) -> int
    decreases s.len(),
{
    if s.len() == 0 {
        0
    } else if s[s.len() - 1] == '/' {
        s.len() as int
    } else {
        last_slash(s.drop_last())
    }
}

/// The index of the first `.` of `s` at or after `from`, or `s.len()` when
/// there is none.
pub open spec fn first_dot_from(s: Seq<char>, from: int) -> int
    decreases s.len() - from,
{
    if from < 0 || from >= s.len() {
        s.len() as int
    } else if s[from] == '.' {
        from
    } else {
        first_dot_from(s, from + 1)
    }
}

/// The display name of a font file path: what stands after the last `/` and
/// before the first `.` that follows it.
pub open spec fn stem_of(s: Seq<char>) -> Seq<char> {
    s.subrange(last_slash(s), first_dot_from(s, last_slash(s)))
}

/// The display name of a registry entry: a system font shows its family
/// name, a user font the stem of its file path.
pub open spec fn spec_font_name(f: Font) -> Seq<char> {
    match f.font_type {
        FontType::System => f.font@,
        FontType::Needle => stem_of(f.font@),
    }
}

impl Fonts {
    /// A fresh registry with no fonts queried yet.
    pub fn new() -> (r: Fonts)
        ensures
            r.available_fonts is None,
    {
        Fonts { available_fonts: None }
    }

    /// The registry list: a copy of the available fonts, empty when none
    /// have been queried yet.
    pub fn available_fonts(&self) -> (r: Vec<Font>)
        ensures
            match self.available_fonts {
                Some(v) => r@.len() == v@.len() && forall|i: int|
                    0 <= i < v@.len() ==> font_eq(r@[i], v@[i]),
                None => r@.len() == 0,
            },
    {
        match &self.available_fonts {
            Some(fonts) => {
                let mut r: Vec<Font> = Vec::new();
                let mut i: usize = 0;
                while i < fonts.len()
                    invariant
                        i <= fonts@.len(),
                        r@.len() == i,
                        forall|j: int| 0 <= j < i ==> font_eq(r@[j], fonts@[j]),
                    decreases fonts@.len() - i,
                {
                    let f = &fonts[i];
                    r.push(Font { font: f.font.clone(), font_type: f.font_type });
                    i = i + 1;
                }
                r
            },
            None => Vec::new(),
        }
    }

    /// Fills the registry from a system-font query and the files of the
    /// user's font directory: system fonts first, then user fonts, each
    /// path kept verbatim. A registry that was already filled is left
    /// untouched.
    pub fn register_fonts(&mut self, system_fonts: &Vec<String>, needle_fonts: &Vec<String>)
        ensures
            old(self).available_fonts is Some ==> *final(self) == *old(self),
            old(self).available_fonts is None ==> match final(self).available_fonts {
                Some(v) => spec_font_list(system_fonts@, needle_fonts@, v@),
                None => false,
            },
    {
        let mut fonts: Vec<Font> = Vec::new();
        let mut i: usize = 0;
        while i < system_fonts.len()
            invariant
                i <= system_fonts@.len(),
                fonts@.len() == i,
                forall|j: int|
                    0 <= j < i ==> fonts@[j].font@ == system_fonts@[j]@ && fonts@[j].font_type
                        == FontType::System,
            decreases system_fonts@.len() - i,
        {
            fonts.push(Font { font: system_fonts[i].clone(), font_type: FontType::System });
            i = i + 1;
        }
        let mut k: usize = 0;
        while k < needle_fonts.len()
            invariant
                k <= needle_fonts@.len(),
                fonts@.len() == system_fonts@.len() + k,
                forall|j: int|
                    0 <= j < system_fonts@.len() ==> (#[trigger] fonts@[j]).font@
                        == system_fonts@[j]@ && fonts@[j].font_type == FontType::System,
                forall|j: int|
                    system_fonts@.len() <= j < fonts@.len() ==> (#[trigger] fonts@[j]).font@
                        == needle_fonts@[j - system_fonts@.len()]@ && fonts@[j].font_type
                        == FontType::Needle,
            decreases needle_fonts@.len() - k,
        {
            fonts.push(Font { font: needle_fonts[k].clone(), font_type: FontType::Needle });
            k = k + 1;
        }
        if self.available_fonts.is_none() {
            self.available_fonts = Some(fonts);
        }
    }

    /// The index of the first registry entry whose name equals `font`, or
    /// `None` when the registry has no such entry or was never filled.
    #[verifier::loop_isolation(false)]
    pub fn lookup(&self, font: &str) -> (r: Option<usize>)
        ensures
            match self.available_fonts {
                Some(v) => match r {
                    Some(i) => i < v@.len() && v@[i as int].font@ == font@ && forall|j: int|
                        0 <= j < i ==> v@[j].font@ != font@,
                    None => forall|j: int| 0 <= j < v@.len() ==> v@[j].font@ != font@,
                },
                None => r is None,
            },
    {
        match &self.available_fonts {
            Some(fonts) => {
                let mut i: usize = 0;
                while i < fonts.len()
                    invariant
                        i <= fonts@.len(),
                        forall|j: int| 0 <= j < i ==> fonts@[j].font@ != font@,
                    decreases fonts@.len() - i,
                {
                    if str_eq(fonts[i].font.as_str(), font) {
                        return Some(i);
                    }
                    i = i + 1;
                }
                None
            },
            None => None,
        }
    }

    /// The display names of the registered fonts, in registry order, or
    /// `None` when the registry was never filled.
    pub fn font_names(&self) -> (r: Option<Vec<String>>)
        ensures
            match self.available_fonts {
                Some(v) => match r {
                    Some(names) => names@.len() == v@.len() && forall|i: int|
                        0 <= i < v@.len() ==> names@[i]@ == spec_font_name(v@[i]),
                    None => false,
                },
                None => r is None,
            },
    {
        match &self.available_fonts {
            Some(fonts) => {
                let mut names: Vec<String> = Vec::new();
                let mut i: usize = 0;
                while i < fonts.len()
                    invariant
                        i <= fonts@.len(),
                        names@.len() == i,
                        forall|j: int| 0 <= j < i ==> names@[j]@ == spec_font_name(fonts@[j]),
                    decreases fonts@.len() - i,
                {
                    let f = &fonts[i];
                    match f.font_type {
                        FontType::Needle => {
                            names.push(path_stem(f.font.as_str()));
                        },
                        FontType::System => {
                            names.push(f.font.clone());
                        },
                    }
                    i = i + 1;
                }
                Some(names)
            },
            None => None,
        }
    }
}

impl Default for Fonts {
    /// The default registry has no fonts queried yet.
    fn default() -> (r: Fonts)
        ensures
            r.available_fonts is None,
    {
        Fonts { available_fonts: None }
    }
}

/// The stem of a path: what stands after the last `/` and before the first
/// `.` that follows it, exactly [`stem_of`].
pub fn path_stem(s: &str) -> (r: String)
    ensures
        r@ == stem_of(s@),
{
    let len = s.unicode_len();
    let mut start: usize = 0;
    let mut i: usize = 0;
    while i < len
        invariant
            i <= len,
            len == s@.len(),
            start as int == last_slash(s@.take(i as int)),
            start <= i,
        decreases len - i,
    {
        let c = s.get_char(i);
        proof {
            assert(s@.take(i + 1).drop_last() =~= s@.take(i as int));
            assert(s@.take(i + 1)[i as int] == s@[i as int]);
        }
        if c == '/' {
            start = i + 1;
        }
        i = i + 1;
    }
    proof {
        assert(s@.take(len as int) =~= s@);
    }
    let mut end: usize = start;
    while end < len && s.get_char(end) != '.'
        invariant
            start <= end <= len,
            len == s@.len(),
            first_dot_from(s@, start as int) == first_dot_from(s@, end as int),
        decreases len - end,
    {
        end = end + 1;
    }
    s.substring_char(start, end).to_owned()
}

} // verus!

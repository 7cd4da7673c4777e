//! Interface languages and the choice of a text by language.
use vstd::prelude::*;

verus! {

/// The languages of the interface.
#[derive(PartialEq, Eq, Structural, Clone, Copy, Debug)]
pub enum Lang {
    Ru,
    En,
    Es,
    Ja,
    Ko,
    Zh,
    Pt,
}

/// Position of a language in a `Phrase`.
pub open spec fn lang_index(lang: Lang) -> int {
    match lang {
        Lang::Ru => 0,
        Lang::En => 1,
        Lang::Es => 2,
        Lang::Ja => 3,
        Lang::Ko => 4,
        Lang::Zh => 5,
        Lang::Pt => 6,
    }
}

/// The text in `lang` of a phrase: one text per language, in the order
/// Ru, En, Es, Ja, Ko, Zh, Pt.
pub open spec fn phrase_in(p: [&'static str; 7], lang: Lang) -> Seq<char> {
    p[lang_index(lang)]@
}

/// One of seven values, by language.
pub open spec fn pick<A>(lang: Lang, ru: A, en: A, es: A, ja: A, ko: A, zh: A, pt: A) -> A {
    match lang {
        Lang::Ru => ru,
        Lang::En => en,
        Lang::Es => es,
        Lang::Ja => ja,
        Lang::Ko => ko,
        Lang::Zh => zh,
        Lang::Pt => pt,
    }
}

impl Lang {
    pub fn index(&self) -> (i: usize)
        ensures
            i == lang_index(*self),
    {
        match self {
            Lang::Ru => 0,
            Lang::En => 1,
            Lang::Es => 2,
            Lang::Ja => 3,
            Lang::Ko => 4,
            Lang::Zh => 5,
            Lang::Pt => 6,
        }
    }

    /// The name of the language, in that language, as the language selector shows it.
    pub fn label(&self) -> (res: &'static str)
        ensures
            res@ == phrase_in(LABELS, *self),
    {
        say(&LABELS, *self)
    }
}

/// The names of the languages, each in its own language.
pub const LABELS: [&'static str; 7] = [
    "Русский",
    "English",
    "Español",
    "日本語",
    "한국어",
    "中文",
    "Português",
];

/// The text of `p` in `lang`.
pub fn say(p: &[&'static str; 7], lang: Lang) -> (res: &'static str)
    ensures
        res@ == phrase_in(*p, lang),
{
    p[lang.index()]
}

/// The text for `lang` among seven given in the order Ru, En, Es, Ja, Ko, Zh, Pt.
pub fn t(lang: &Lang, ru: &str, en: &str, es: &str, ja: &str, ko: &str, zh: &str, pt: &str) -> (res:
    String)
    ensures
        res@ == pick(*lang, ru@, en@, es@, ja@, ko@, zh@, pt@),
{
    match lang {
        Lang::Ru => ru,
        Lang::En => en,
        Lang::Es => es,
        Lang::Ja => ja,
        Lang::Ko => ko,
        Lang::Zh => zh,
        Lang::Pt => pt,
    }.to_owned()
}

} // verus!

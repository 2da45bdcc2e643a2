//! Adding a game directory to the search paths: what is refused as a
//! duplicate, and the search path that is added otherwise.

use vstd::prelude::*;

use crate::locale::Language;

verus! {

/// A search path that is a directory: the base it lies under, its game
/// folder, the language it is restricted to, whether it is ignored and
/// whether its files skip the pure check.
#[derive(Clone, Debug)]
pub struct DirSearchPath {
    pub base: String,
    pub gamedir: String,
    pub language: Option<Language>,
    pub ignore: bool,
    pub ignore_pure_check: bool,
}

/// The mathematical model of a [`DirSearchPath`]: texts by their characters.
pub struct DirSearchPathView {
    pub base: Seq<char>,
    pub gamedir: Seq<char>,
    pub language: Option<Language>,
    pub ignore: bool,
    pub ignore_pure_check: bool,
}

impl View for DirSearchPath {
    type V = DirSearchPathView;

    open spec fn view(&self) -> DirSearchPathView {
        DirSearchPathView {
            base: self.base@,
            gamedir: self.gamedir@,
            language: self.language,
            ignore: self.ignore,
            ignore_pure_check: self.ignore_pure_check,
        }
    }
}

/// What adding a game directory comes to.
#[derive(Debug)]
pub enum GameDirPlan {
    /// A search path of the same base and game folder exists; nothing is
    /// added. `both` asks for the warning that the folder was added as both
    /// localized and non-localized (using it as localized), and
    /// `other_language` for the warning that it was added again with
    /// another language.
    Duplicate { both: bool, other_language: bool },
    /// The game folder becomes the current one and `path` is added.
    Add { path: DirSearchPath },
}

/// The position of the first search path of `paths` with base `base` and
/// game folder `gamedir`, from `i` on.
pub open spec fn first_same_dir(paths: Seq<DirSearchPathView>, base: Seq<char>, gamedir: Seq<char>, i: int) -> Option<int>
    decreases paths.len() - i,
{
    if i >= paths.len() || i < 0 {
        None
    } else if paths[i].base == base && paths[i].gamedir == gamedir {
        Some(i)
    } else {
        first_same_dir(paths, base, gamedir, i + 1)
    }
}

/// The flags of a new directory search path: with the developer directory
/// off, "main" is ignored and "players" and "demos" skip the pure check;
/// with it on, nothing is ignored and everything skips the pure check.
pub open spec fn gamedir_flags(gamedir: Seq<char>, use_dev_dir: bool) -> (bool, bool) {
    if !use_dev_dir {
        (gamedir == "main"@, gamedir == "players"@ || gamedir == "demos"@)
    } else {
        (false, true)
    }
}

fn text_eq(a: &String, b: &str) -> (r: bool)
    ensures
        r == (a@ == b@),
{
    *a == b.to_owned()
}

/// Plans the adding of the game folder `gamedir` under `base` for the
/// language `lang` to the directory search paths `paths` (in their order);
/// `use_dev_dir` tells whether "fs_usedevdir" is on. A game directory
/// without a language is a fatal error (the language name that the folder
/// is given is missing), which `requires` rules out; with one, the folder
/// is kept as it is. The first search path of the same base and folder
/// makes the adding a duplicate; otherwise the folder becomes the current
/// one and a search path restricted to `lang` is added with the flags of
/// [`gamedir_flags`].
pub fn plan_game_directory(paths: &Vec<DirSearchPath>, base: &str, gamedir: &str, lang: Option<Language>, use_dev_dir: bool) -> (r: GameDirPlan)
    requires
        lang is Some,
    ensures
        match first_same_dir(paths@.map_values(|p: DirSearchPath| p@), base@, gamedir@, 0) {
            Some(i) => r matches GameDirPlan::Duplicate { both, other_language } && {
                let sp = paths@[i]@;
                &&& both == sp.language is Some
                &&& other_language == (sp.language is Some && sp.language != lang)
            },
            None => r matches GameDirPlan::Add { path } && path@ == (DirSearchPathView {
                base: base@,
                gamedir: gamedir@,
                language: lang,
                ignore: gamedir_flags(gamedir@, use_dev_dir).0,
                ignore_pure_check: gamedir_flags(gamedir@, use_dev_dir).1,
            }),
        },
{
    let ghost views = paths@.map_values(|p: DirSearchPath| p@);
    let mut i: usize = 0;
    while i < paths.len()
        invariant
            0 <= i <= paths@.len(),
            views == paths@.map_values(|p: DirSearchPath| p@),
            first_same_dir(views, base@, gamedir@, 0) == first_same_dir(views, base@, gamedir@, i as int),
        decreases paths@.len() - i,
    {
        let sp = &paths[i];
        assert(views[i as int] == paths@[i as int]@);
        if text_eq(&sp.base, base) && text_eq(&sp.gamedir, gamedir) {
            assert(first_same_dir(views, base@, gamedir@, i as int) == Some(i as int));
            let localized = sp.language.is_some();
            let other_language = match sp.language {
                Some(a) => match lang {
                    Some(b) => a != b,
                    None => true,
                },
                None => false,
            };
            return GameDirPlan::Duplicate { both: localized, other_language };
        }
        i = i + 1;
    }
    let (ignore, ignore_pure_check) = if !use_dev_dir {
        (text_eq(&gamedir.to_owned(), "main"), text_eq(&gamedir.to_owned(), "players") || text_eq(&gamedir.to_owned(), "demos"))
    } else {
        (false, true)
    };
    GameDirPlan::Add {
        path: DirSearchPath { base: base.to_owned(), gamedir: gamedir.to_owned(), language: lang, ignore, ignore_pure_check },
    }
}

} // verus!

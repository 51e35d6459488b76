//! The list of signature database files handed to load, check, compile and list.
use vstd::prelude::*;

verus! {

/// Separates database file names in the string handed to the engine.
pub const DATABASE_FILENAME_SEPARATOR: char = ':';

/// The names joined into one string, with the separator between neighbours.
pub open spec fn joined(names: Seq<Seq<char>>) -> Seq<char>
    decreases names.len(),
{
    if names.len() == 0 {
        Seq::empty()
    } else if names.len() == 1 {
        names[0]
    } else {
        joined(names.drop_last()) + seq![DATABASE_FILENAME_SEPARATOR] + names.last()
    }
}

/// The text of each path.
pub open spec fn path_texts(paths: Seq<&str>) -> Seq<Seq<char>> {
    paths.map_values(|p: &str| p@)
}

/// Whether the engine can take `s` as one string: it holds no NUL.
pub open spec fn is_native_string(s: Seq<char>) -> bool {
    !s.contains('\0')
}

/// Every character of every name occurs in the joined string.
pub proof fn lemma_joined_keeps(names: Seq<Seq<char>>, i: int, c: char)
    requires
        0 <= i < names.len(),
        names[i].contains(c),
    ensures
        joined(names).contains(c),
    decreases names.len(),
{
    let k = choose|k: int| 0 <= k < names[i].len() && names[i][k] == c;
    if names.len() == 1 {
        assert(joined(names)[k] == c);
    } else if i == names.len() - 1 {
        let front = joined(names.drop_last()) + seq![DATABASE_FILENAME_SEPARATOR];
        assert(joined(names)[front.len() + k] == c);
    } else {
        lemma_joined_keeps(names.drop_last(), i, c);
        let k2 = choose|k2: int|
            0 <= k2 < joined(names.drop_last()).len() && joined(names.drop_last())[k2] == c;
        assert(joined(names)[k2] == c);
    }
}

/// A character of the joined string other than the separator comes from one
/// of the names.
pub proof fn lemma_joined_from_names(names: Seq<Seq<char>>, c: char)
    requires
        joined(names).contains(c),
        c != DATABASE_FILENAME_SEPARATOR,
    ensures
        exists|i: int| 0 <= i < names.len() && #[trigger] names[i].contains(c),
    decreases names.len(),
{
    let k = choose|k: int| 0 <= k < joined(names).len() && joined(names)[k] == c;
    if names.len() == 1 {
        assert(names[0][k] == c);
    } else {
        let rest = joined(names.drop_last());
        if k < rest.len() {
            assert(rest[k] == c);
            lemma_joined_from_names(names.drop_last(), c);
            let i = choose|i: int|
                0 <= i < names.drop_last().len() && #[trigger] names.drop_last()[i].contains(c);
            assert(names[i] == names.drop_last()[i]);
        } else {
            let k2 = k - rest.len() - 1;
            assert(names.last()[k2] == c);
            assert(names[names.len() - 1].contains(c));
        }
    }
}

/// Whether some path holds a NUL.
pub open spec fn some_path_has_nul(paths: Seq<&str>) -> bool {
    exists|i: int| 0 <= i < paths.len() && #[trigger] paths[i]@.contains('\0')
}

/// A list of paths can be handed to the engine exactly when no path holds a
/// NUL.
pub proof fn lemma_native_iff_no_nul(paths: Seq<&str>)
    ensures
        is_native_string(joined(path_texts(paths))) <==> !some_path_has_nul(paths),
{
    let texts = path_texts(paths);
    if some_path_has_nul(paths) {
        let i = choose|i: int| 0 <= i < paths.len() && #[trigger] paths[i]@.contains('\0');
        assert(texts[i] == paths[i]@);
        lemma_joined_keeps(texts, i, '\0');
    }
    if joined(texts).contains('\0') {
        lemma_joined_from_names(texts, '\0');
        let i = choose|i: int| 0 <= i < texts.len() && #[trigger] texts[i].contains('\0');
        assert(paths[i]@ == texts[i]);
    }
}

/// A path of the list held a character that the engine cannot take in a path.
#[derive(Debug)]
pub struct InvalidDatabasePathError {}

/// Signature database files, as the engine takes them: one string of names
/// joined by the separator, or nothing, which asks for the default database.
#[derive(Debug)]
pub struct DatabasePaths {
    filenames: Option<String>,
}

impl View for DatabasePaths {
    type V = Option<Seq<char>>;

    closed spec fn view(&self) -> Option<Seq<char>> {
        match &self.filenames {
            Some(s) => Some(s@),
            None => None,
        }
    }
}

impl DatabasePaths {
    /// Joins `paths` for the engine.
    ///
    /// Fails where the joined string holds a NUL. Where it is empty (no
    /// paths, or one empty path), the list asks for the default database.
    pub fn new(paths: &[&str]) -> (r: Result<DatabasePaths, InvalidDatabasePathError>)
        ensures
            r is Err <==> some_path_has_nul(paths@),
            paths@.len() == 0 ==> r is Ok && r->Ok_0@ == None::<Seq<char>>,
            r is Err <==> !is_native_string(joined(path_texts(paths@))),
            r is Ok && joined(path_texts(paths@)).len() == 0 ==> r->Ok_0@ == None::<Seq<char>>,
            r is Ok && joined(path_texts(paths@)).len() > 0 ==> r->Ok_0@ == Some(
                joined(path_texts(paths@)),
            ),
    {
        let ghost texts = path_texts(paths@);
        let mut filename = String::new();
        let mut i: usize = 0;
        while i < paths.len()
            invariant
                i <= paths.len(),
                texts == path_texts(paths@),
                filename@ == joined(texts.take(i as int)),
            decreases paths.len() - i,
        {
            proof {
                assert(texts.take(i + 1).drop_last() =~= texts.take(i as int));
            }
            if i > 0 {
                filename.append(":");
                proof {
                    reveal_strlit(":");
                }
            }
            filename.append(paths[i]);
            i = i + 1;
        }
        proof {
            assert(texts.take(paths.len() as int) =~= texts);
        }
        let len = filename.as_str().unicode_len();
        let mut k: usize = 0;
        while k < len
            invariant
                k <= len,
                len == filename@.len(),
                texts == path_texts(paths@),
                filename@ == joined(texts),
                forall|j: int| 0 <= j < k ==> filename@[j] != '\0',
            decreases len - k,
        {
            if filename.as_str().get_char(k) == '\0' {
                assert(filename@[k as int] == '\0');
                proof {
                    lemma_native_iff_no_nul(paths@);
                }
                return Err(InvalidDatabasePathError {});
            }
            k = k + 1;
        }
        proof {
            lemma_native_iff_no_nul(paths@);
        }
        if len == 0 {
            Ok(DatabasePaths { filenames: None })
        } else {
            Ok(DatabasePaths { filenames: Some(filename) })
        }
    }

    /// The joined names, or `None` where the default database is asked for.
    pub fn filenames(&self) -> (r: Option<&str>)
        ensures
            match r {
                Some(s) => self@ == Some(s@),
                None => self@ == None::<Seq<char>>,
            },
    {
        match &self.filenames {
            Some(s) => Some(s.as_str()),
            None => None,
        }
    }
}

// The conversion's result is stated by the `ensures` of `try_from` below,
// not as a spec value: the engine string it holds has no spec constructor.
impl<'a> vstd::std_specs::convert::TryFromSpecImpl<&'a [&'a str]> for DatabasePaths {
    open spec fn obeys_try_from_spec() -> bool {
        false
    }

    open spec fn try_from_spec(v: &'a [&'a str]) -> Result<DatabasePaths, InvalidDatabasePathError> {
        Err(InvalidDatabasePathError {  })
    }
}

impl<'a> TryFrom<&'a [&'a str]> for DatabasePaths {
    type Error = InvalidDatabasePathError;

    /// The list of `paths`; see [`DatabasePaths::new`].
    fn try_from(paths: &'a [&'a str]) -> (r: Result<DatabasePaths, InvalidDatabasePathError>)
        ensures
            r is Err <==> some_path_has_nul(paths@),
            r is Ok && joined(path_texts(paths@)).len() == 0 ==> r->Ok_0@ == None::<Seq<char>>,
            r is Ok && joined(path_texts(paths@)).len() > 0 ==> r->Ok_0@ == Some(
                joined(path_texts(paths@)),
            ),
    {
        DatabasePaths::new(paths)
    }
}

// The conversion's result is stated by the `ensures` of `try_from` below,
// not as a spec value: the engine string it holds has no spec constructor.
impl<'a> vstd::std_specs::convert::TryFromSpecImpl<&'a str> for DatabasePaths {
    open spec fn obeys_try_from_spec() -> bool {
        false
    }

    open spec fn try_from_spec(v: &'a str) -> Result<DatabasePaths, InvalidDatabasePathError> {
        Err(InvalidDatabasePathError {  })
    }
}

impl<'a> TryFrom<&'a str> for DatabasePaths {
    type Error = InvalidDatabasePathError;

    /// The list of the one path `path`; see [`DatabasePaths::new`].
    fn try_from(path: &'a str) -> (r: Result<DatabasePaths, InvalidDatabasePathError>)
        ensures
            r is Err <==> path@.contains('\0'),
            r is Ok ==> r->Ok_0@ == if path@.len() == 0 {
                None
            } else {
                Some(path@)
            },
    {
        let single = [path];
        let r = DatabasePaths::new(&single);
        proof {
            assert(single@ =~= seq![path]);
            assert(path_texts(single@) =~= seq![path@]);
            assert(joined(path_texts(single@)) == path@);
            if path@.contains('\0') {
                assert(single@[0]@.contains('\0'));
            }
        }
        r
    }
}

impl Default for DatabasePaths {
    /// The list that asks for the default database.
    fn default() -> (r: DatabasePaths)
        ensures
            r@ == None::<Seq<char>>,
    {
        DatabasePaths { filenames: None }
    }
}

} // verus!

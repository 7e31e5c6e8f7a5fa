//! Command-line argument parsing.
//!
//! The shell recognises two options that each take a value, `--output-file`
//! and `--macros`, plus at most one positional argument carrying
//! base64-encoded diagram data. Anything else that looks like a flag is
//! rejected, as are duplicated options, options without a value, and a second
//! positional argument.

use vstd::prelude::*;

verus! {

/// Raw parsed start-up flags, untouched input strings.
pub struct Args {
    /// Path to the file where diagram code is written on exit, if given.
    pub output_file: Option<String>,
    /// Path or URL of a file with LaTeX macro definitions, if given.
    pub macros: Option<String>,
    /// Base64-encoded diagram data to load on startup, if given.
    pub data: Option<String>,
}

/// Mathematical model of [`Args`]: each field as a character sequence.
pub ghost struct ArgsView {
    pub output_file: Option<Seq<char>>,
    pub macros: Option<Seq<char>>,
    pub data: Option<Seq<char>>,
}

impl View for Args {
    type V = ArgsView;

    open spec fn view(&self) -> ArgsView {
        ArgsView {
            output_file: self.output_file.deep_view(),
            macros: self.macros.deep_view(),
            data: self.data.deep_view(),
        }
    }
}

/// Why an argument list was rejected. Each variant carries the offending
/// argument as it appeared on the command line.
pub enum ArgError {
    /// An argument began with `-` but is not a recognised option.
    UnknownFlag { flag: String },
    /// A recognised option stood last, with no value after it.
    MissingValue { flag: String },
    /// A recognised option appeared a second time.
    DuplicateFlag { flag: String },
    /// A second positional argument appeared.
    UnexpectedArgument { arg: String },
}

/// Mathematical model of [`ArgError`].
pub ghost enum ArgErrorView {
    UnknownFlag { flag: Seq<char> },
    MissingValue { flag: Seq<char> },
    DuplicateFlag { flag: Seq<char> },
    UnexpectedArgument { arg: Seq<char> },
}

impl View for ArgError {
    type V = ArgErrorView;

    open spec fn view(&self) -> ArgErrorView {
        match self {
            ArgError::UnknownFlag { flag } => ArgErrorView::UnknownFlag { flag: flag@ },
            ArgError::MissingValue { flag } => ArgErrorView::MissingValue { flag: flag@ },
            ArgError::DuplicateFlag { flag } => ArgErrorView::DuplicateFlag { flag: flag@ },
            ArgError::UnexpectedArgument { arg } => ArgErrorView::UnexpectedArgument { arg: arg@ },
        }
    }
}

/// The state of the parser before any argument has been read.
pub open spec fn empty_args() -> ArgsView {
    ArgsView { output_file: None, macros: None, data: None }
}

/// An argument that the parser treats as an option rather than a value:
/// it begins with `-` and is more than the bare dash.
pub open spec fn flag_like(a: Seq<char>) -> bool {
    a.len() >= 2 && a[0] == '-'
}

/// What parsing decides on the arguments still to be read, given the fields
/// gathered so far. Arguments are consumed left to right; an option consumes
/// the argument after it as its value.
pub open spec fn parse_rest(argv: Seq<Seq<char>>, acc: ArgsView) -> Result<ArgsView, ArgErrorView>
    decreases argv.len(),
{
    if argv.len() == 0 {
        Ok(acc)
    } else {
        let a = argv[0];
        if a == "--output-file"@ {
            if acc.output_file is Some {
                Err(ArgErrorView::DuplicateFlag { flag: a })
            } else if argv.len() == 1 {
                Err(ArgErrorView::MissingValue { flag: a })
            } else {
                parse_rest(argv.skip(2), ArgsView { output_file: Some(argv[1]), ..acc })
            }
        } else if a == "--macros"@ {
            if acc.macros is Some {
                Err(ArgErrorView::DuplicateFlag { flag: a })
            } else if argv.len() == 1 {
                Err(ArgErrorView::MissingValue { flag: a })
            } else {
                parse_rest(argv.skip(2), ArgsView { macros: Some(argv[1]), ..acc })
            }
        } else if flag_like(a) {
            Err(ArgErrorView::UnknownFlag { flag: a })
        } else if acc.data is Some {
            Err(ArgErrorView::UnexpectedArgument { arg: a })
        } else {
            parse_rest(argv.skip(1), ArgsView { data: Some(a), ..acc })
        }
    }
}

/// What parsing decides on a whole argument list (the program name already
/// stripped).
pub open spec fn spec_parse_args(argv: Seq<Seq<char>>) -> Result<ArgsView, ArgErrorView> {
    parse_rest(argv, empty_args())
}

/// Parses the argument list into [`Args`], or reports the first offending
/// argument. The result is exactly what [`spec_parse_args`] decides.
pub fn parse_args(argv: &Vec<String>) -> (r: Result<Args, ArgError>)
    ensures
        match r {
            Ok(a) => spec_parse_args(argv.deep_view()) == Ok::<ArgsView, ArgErrorView>(a@),
            Err(e) => spec_parse_args(argv.deep_view()) == Err::<ArgsView, ArgErrorView>(e@),
        },
{
    let ghost whole: Seq<Seq<char>> = argv.deep_view();
    let mut output_file: Option<String> = None;
    let mut macros: Option<String> = None;
    let mut data: Option<String> = None;
    let mut i: usize = 0;
    proof {
        assert(whole.skip(0) =~= whole);
    }
    while i < argv.len()
        invariant
            i <= argv.len(),
            whole == argv.deep_view(),
            whole.len() == argv.len(),
            parse_rest(
                whole.skip(i as int),
                ArgsView {
                    output_file: output_file.deep_view(),
                    macros: macros.deep_view(),
                    data: data.deep_view(),
                },
            ) == spec_parse_args(whole),
        decreases argv.len() - i,
    {
        proof {
            assert(whole.skip(i as int)[0] == whole[i as int]);
            assert(whole.skip(i as int).len() == whole.len() - i);
        }
        let a: &String = &argv[i];
        if crate::chars::str_eq(a.as_str(), "--output-file") {
            if output_file.is_some() {
                return Err(ArgError::DuplicateFlag { flag: a.clone() });
            }
            if i + 1 >= argv.len() {
                proof {
                    assert(whole.skip(i as int).len() == 1);
                }
                return Err(ArgError::MissingValue { flag: a.clone() });
            }
            let value: String = argv[i + 1].clone();
            proof {
                assert(whole.skip(i as int)[1] == whole[i + 1]);
                assert(whole.skip(i as int).skip(2) =~= whole.skip(i + 2));
            }
            output_file = Some(value);
            i = i + 2;
        } else if crate::chars::str_eq(a.as_str(), "--macros") {
            if macros.is_some() {
                return Err(ArgError::DuplicateFlag { flag: a.clone() });
            }
            if i + 1 >= argv.len() {
                proof {
                    assert(whole.skip(i as int).len() == 1);
                }
                return Err(ArgError::MissingValue { flag: a.clone() });
            }
            let value: String = argv[i + 1].clone();
            proof {
                assert(whole.skip(i as int)[1] == whole[i + 1]);
                assert(whole.skip(i as int).skip(2) =~= whole.skip(i + 2));
            }
            macros = Some(value);
            i = i + 2;
        } else if a.as_str().unicode_len() >= 2 && a.as_str().get_char(0) == '-' {
            return Err(ArgError::UnknownFlag { flag: a.clone() });
        } else if data.is_some() {
            return Err(ArgError::UnexpectedArgument { arg: a.clone() });
        } else {
            proof {
                assert(whole.skip(i as int).skip(1) =~= whole.skip(i + 1));
            }
            data = Some(a.clone());
            i = i + 1;
        }
    }
    proof {
        assert(whole.skip(i as int) =~= Seq::<Seq<char>>::empty());
    }
    Ok(Args { output_file, macros, data })
}

/// The command line that states the given fields: `--output-file` and
/// `--macros` each with their value when present, the data positional last.
pub open spec fn argv_of(
    out: Option<Seq<char>>,
    mac: Option<Seq<char>>,
    dat: Option<Seq<char>>,
) -> Seq<Seq<char>> {
    output_part(out) + macros_part(mac) + data_part(dat)
}

pub open spec fn output_part(out: Option<Seq<char>>) -> Seq<Seq<char>> {
    match out {
        Some(p) => seq!["--output-file"@, p],
        None => Seq::<Seq<char>>::empty(),
    }
}

pub open spec fn macros_part(mac: Option<Seq<char>>) -> Seq<Seq<char>> {
    match mac {
        Some(m) => seq!["--macros"@, m],
        None => Seq::<Seq<char>>::empty(),
    }
}

pub open spec fn data_part(dat: Option<Seq<char>>) -> Seq<Seq<char>> {
    match dat {
        Some(d) => seq![d],
        None => Seq::<Seq<char>>::empty(),
    }
}

proof fn lemma_flag_literals()
    ensures
        flag_like("--output-file"@),
        flag_like("--macros"@),
        "--output-file"@ != "--macros"@,
{
    reveal_strlit("--output-file");
    reveal_strlit("--macros");
    assert("--output-file"@.len() == 13);
    assert("--macros"@.len() == 8);
    assert("--output-file"@[0] == '-');
    assert("--macros"@[0] == '-');
}

proof fn lemma_parse_data_part(dat: Option<Seq<char>>, acc: ArgsView)
    requires
        acc.data is None,
        dat matches Some(d) ==> !flag_like(d),
    ensures
        parse_rest(data_part(dat), acc) == Ok::<ArgsView, ArgErrorView>(
            ArgsView { data: dat, ..acc },
        ),
{
    lemma_flag_literals();
    match dat {
        Some(d) => {
            let argv = data_part(dat);
            assert(argv[0] == d);
            assert(d != "--output-file"@);
            assert(d != "--macros"@);
            assert(argv.skip(1) =~= Seq::<Seq<char>>::empty());
            assert(parse_rest(argv.skip(1), ArgsView { data: Some(d), ..acc }) == Ok::<
                ArgsView,
                ArgErrorView,
            >(ArgsView { data: dat, ..acc }));
        },
        None => {
            assert(data_part(dat) =~= Seq::<Seq<char>>::empty());
        },
    }
}

proof fn lemma_parse_macros_part(mac: Option<Seq<char>>, dat: Option<Seq<char>>, acc: ArgsView)
    requires
        acc.macros is None,
        acc.data is None,
        dat matches Some(d) ==> !flag_like(d),
    ensures
        parse_rest(macros_part(mac) + data_part(dat), acc) == Ok::<ArgsView, ArgErrorView>(
            ArgsView { macros: mac, data: dat, ..acc },
        ),
{
    lemma_flag_literals();
    let argv = macros_part(mac) + data_part(dat);
    match mac {
        Some(m) => {
            assert(argv[0] == "--macros"@);
            assert(argv.len() >= 2);
            assert(argv.skip(2) =~= data_part(dat));
            lemma_parse_data_part(dat, ArgsView { macros: Some(m), ..acc });
        },
        None => {
            assert(argv =~= data_part(dat));
            lemma_parse_data_part(dat, acc);
        },
    }
}

/// Parsing is lossless: the command line stating any choice of fields parses
/// back to exactly those fields. A positional argument that itself begins
/// with `-` is the one shape excluded, since the parser reads it as a flag.
pub proof fn lemma_parse_round_trip(
    out: Option<Seq<char>>,
    mac: Option<Seq<char>>,
    dat: Option<Seq<char>>,
)
    requires
        dat matches Some(d) ==> !flag_like(d),
    ensures
        spec_parse_args(argv_of(out, mac, dat)) == Ok::<ArgsView, ArgErrorView>(
            ArgsView { output_file: out, macros: mac, data: dat },
        ),
{
    lemma_flag_literals();
    let argv = argv_of(out, mac, dat);
    match out {
        Some(p) => {
            assert(argv[0] == "--output-file"@);
            assert(argv.len() >= 2);
            assert(argv.skip(2) =~= macros_part(mac) + data_part(dat));
            lemma_parse_macros_part(mac, dat, ArgsView { output_file: Some(p), ..empty_args() });
        },
        None => {
            assert(argv =~= macros_part(mac) + data_part(dat));
            lemma_parse_macros_part(mac, dat, empty_args());
        },
    }
}

} // verus!


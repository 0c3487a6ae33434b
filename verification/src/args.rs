//! Command-line flags.
use crate::text::{ascii_lower, same_text};
use vstd::prelude::*;

verus! {

/// Flags that start the launcher without updating the repository.
pub open spec fn preview_no_update_flags() -> Seq<Seq<char>> {
    seq![
        "--preview-no-update"@,
        "--skip-update"@,
        "--no-update"@,
        "--disable-update"@,
        "/preview-no-update"@,
        "/skip-update"@,
        "/no-update"@,
    ]
}

/// Flags that stop the splash on an artificial error.
pub open spec fn preview_crash_flags() -> Seq<Seq<char>> {
    seq![
        "--preview-crash"@,
        "--preview-error"@,
        "--crash-preview"@,
        "--error-preview"@,
        "/preview-crash"@,
        "/preview-error"@,
    ]
}

/// Flags that keep the main window in the tray.
pub open spec fn start_minimized_flags() -> Seq<Seq<char>> {
    seq!["--start-minimized"@, "/start-minimized"@]
}

/// An argument in lower case, as flags are compared.
pub open spec fn normalized(arg: Seq<char>) -> Seq<char> {
    arg.map_values(|c: char| ascii_lower(c))
}

/// Whether some argument after the program name is one of the flags, whatever
/// the case of its ASCII letters.
pub open spec fn has_flag(args: Seq<String>, flags: Seq<Seq<char>>) -> bool {
    exists|i: int| 1 <= i < args.len() && flags.contains(normalized(#[trigger] args[i]@))
}

/// The texts of some flags.
pub open spec fn flag_texts(flags: Seq<&str>) -> Seq<Seq<char>> {
    flags.map_values(|flag: &str| flag@)
}

/// Tells whether an argument after the program name is one of the flags.
pub fn launcher_arg_present(args: &Vec<String>, flags: &Vec<&str>) -> (present: bool)
    ensures
        present == has_flag(args@, flag_texts(flags@)),
{
    let ghost texts = flag_texts(flags@);
    let mut i: usize = 1;
    while i < args.len()
        invariant
            1 <= i,
            texts == flag_texts(flags@),
            forall|k: int|
                1 <= k < i && k < args.len() ==> !texts.contains(normalized(#[trigger] args@[k]@)),
        decreases args.len() - i,
    {
        let arg = args[i].as_str().to_ascii_lowercase();
        let mut j: usize = 0;
        while j < flags.len()
            invariant
                j <= flags.len(),
                i < args.len(),
                1 <= i,
                arg@ == normalized(args@[i as int]@),
                texts == flag_texts(flags@),
                forall|k: int| 0 <= k < j ==> texts[k] != arg@,
            decreases flags.len() - j,
        {
            assert(texts[j as int] == flags@[j as int]@);
            if same_text(arg.as_str(), flags[j]) {
                assert(texts.contains(normalized(args@[i as int]@)));
                return true;
            }
            j += 1;
        }
        assert(!texts.contains(normalized(args@[i as int]@)));
        i += 1;
    }
    false
}

/// Tells whether the launcher was asked not to update the repository.
pub fn preview_no_update_arg_present(args: &Vec<String>) -> (present: bool)
    ensures
        present == has_flag(args@, preview_no_update_flags()),
{
    let flags: Vec<&str> = vec![
        "--preview-no-update",
        "--skip-update",
        "--no-update",
        "--disable-update",
        "/preview-no-update",
        "/skip-update",
        "/no-update",
    ];
    assert(flag_texts(flags@) =~= preview_no_update_flags());
    launcher_arg_present(args, &flags)
}

/// Tells whether the launcher was asked to show an artificial error.
pub fn preview_crash_arg_present(args: &Vec<String>) -> (present: bool)
    ensures
        present == has_flag(args@, preview_crash_flags()),
{
    let flags: Vec<&str> = vec![
        "--preview-crash",
        "--preview-error",
        "--crash-preview",
        "--error-preview",
        "/preview-crash",
        "/preview-error",
    ];
    assert(flag_texts(flags@) =~= preview_crash_flags());
    launcher_arg_present(args, &flags)
}

/// Tells whether the launcher was asked to stay in the tray.
pub fn start_minimized_arg_present(args: &Vec<String>) -> (present: bool)
    ensures
        present == has_flag(args@, start_minimized_flags()),
{
    let flags: Vec<&str> = vec!["--start-minimized", "/start-minimized"];
    assert(flag_texts(flags@) =~= start_minimized_flags());
    launcher_arg_present(args, &flags)
}

/// What the command line asks for.
#[derive(Debug, Clone, Copy, PartialEq, Eq, Structural)]
pub struct LaunchOptions {
    /// Stop the splash on an artificial error.
    pub preview_crash: bool,
    /// Do not update the repository.
    pub preview_no_update: bool,
    /// Keep the main window in the tray.
    pub start_minimized: bool,
}

impl LaunchOptions {
    /// The options that a command line, program name first, asks for. A preview
    /// of the error state never updates the repository.
    pub fn from_args(args: &Vec<String>) -> (options: LaunchOptions)
        ensures
            options.preview_crash == has_flag(args@, preview_crash_flags()),
            options.preview_no_update == (has_flag(args@, preview_crash_flags()) || has_flag(
                args@,
                preview_no_update_flags(),
            )),
            options.start_minimized == has_flag(args@, start_minimized_flags()),
    {
        let preview_crash = preview_crash_arg_present(args);
        let preview_no_update = preview_crash || preview_no_update_arg_present(args);
        let start_minimized = start_minimized_arg_present(args);
        LaunchOptions { preview_crash, preview_no_update, start_minimized }
    }
}

/// The case of ASCII letters in the arguments makes no difference.
pub proof fn law_flags_ignore_case(a: Seq<String>, b: Seq<String>, flags: Seq<Seq<char>>)
    requires
        a.len() == b.len(),
        forall|i: int|
            0 <= i < a.len() ==> normalized(#[trigger] a[i]@) == normalized(#[trigger] b[i]@),
    ensures
        has_flag(a, flags) == has_flag(b, flags),
{
    if has_flag(a, flags) {
        let i = choose|i: int|
            1 <= i < a.len() && flags.contains(normalized(#[trigger] a[i]@));
        assert(flags.contains(normalized(b[i]@)));
    }
    if has_flag(b, flags) {
        let i = choose|i: int|
            1 <= i < b.len() && flags.contains(normalized(#[trigger] b[i]@));
        assert(flags.contains(normalized(a[i]@)));
    }
}

/// Every argument but the first counts, however many there are: a further argument makes
/// a flag present exactly if it is that flag, and none is present without arguments.
pub proof fn law_every_argument_counts(args: Seq<String>, arg: String, flags: Seq<Seq<char>>)
    ensures
        args.len() <= 1 ==> !has_flag(args, flags),
        args.len() >= 1 ==> (has_flag(args.push(arg), flags) <==> has_flag(args, flags)
            || flags.contains(normalized(arg@))),
{
    let longer = args.push(arg);
    if args.len() >= 1 {
        if has_flag(longer, flags) {
            let i = choose|i: int|
                1 <= i < longer.len() && flags.contains(normalized(#[trigger] longer[i]@));
            if i < args.len() {
                assert(args[i] == longer[i]);
            }
        }
        if has_flag(args, flags) {
            let i = choose|i: int|
                1 <= i < args.len() && flags.contains(normalized(#[trigger] args[i]@));
            assert(longer[i] == args[i]);
        }
        assert(longer[args.len() as int] == arg);
    }
}

/// An argument is compared whole, with `A` to `Z` in lower case and everything else as
/// it is.
pub proof fn law_arguments_are_compared_whole(arg: Seq<char>)
    ensures
        normalized(arg).len() == arg.len(),
        forall|i: int|
            0 <= i < arg.len() ==> #[trigger] normalized(arg)[i] == (if 'A' <= arg[i] <= 'Z' {
                (arg[i] as u32 + 32) as char
            } else {
                arg[i]
            }),
{
}

/// Which arguments are flags: of the preview without update, of the preview of the error
/// state, and of the start in the tray. Nothing else is.
pub proof fn law_flags_of_the_launcher(arg: Seq<char>)
    ensures
        preview_no_update_flags().contains(arg) <==> (arg == "--preview-no-update"@ || arg
            == "--skip-update"@ || arg == "--no-update"@ || arg == "--disable-update"@ || arg
            == "/preview-no-update"@ || arg == "/skip-update"@ || arg == "/no-update"@),
        preview_crash_flags().contains(arg) <==> (arg == "--preview-crash"@ || arg
            == "--preview-error"@ || arg == "--crash-preview"@ || arg == "--error-preview"@ || arg
            == "/preview-crash"@ || arg == "/preview-error"@),
        start_minimized_flags().contains(arg) <==> (arg == "--start-minimized"@ || arg
            == "/start-minimized"@),
{
    let no_update = preview_no_update_flags();
    assert(no_update[0] == "--preview-no-update"@ && no_update[1] == "--skip-update"@);
    assert(no_update[2] == "--no-update"@ && no_update[3] == "--disable-update"@);
    assert(no_update[4] == "/preview-no-update"@ && no_update[5] == "/skip-update"@);
    assert(no_update[6] == "/no-update"@);
    let crash = preview_crash_flags();
    assert(crash[0] == "--preview-crash"@ && crash[1] == "--preview-error"@);
    assert(crash[2] == "--crash-preview"@ && crash[3] == "--error-preview"@);
    assert(crash[4] == "/preview-crash"@ && crash[5] == "/preview-error"@);
    let minimized = start_minimized_flags();
    assert(minimized[0] == "--start-minimized"@ && minimized[1] == "/start-minimized"@);
}

/// The options are those that the single questions give, except that a preview of the
/// error state never updates the repository.
pub proof fn law_options_answer_the_questions(
    args: &Vec<String>,
    options: LaunchOptions,
    crash: bool,
    no_update: bool,
    minimized: bool,
)
    requires
        call_ensures(LaunchOptions::from_args, (args,), options),
        call_ensures(preview_crash_arg_present, (args,), crash),
        call_ensures(preview_no_update_arg_present, (args,), no_update),
        call_ensures(start_minimized_arg_present, (args,), minimized),
    ensures
        options.preview_crash == crash,
        options.start_minimized == minimized,
        options.preview_no_update == (crash || no_update),
        no_update == has_flag(args@, preview_no_update_flags()),
        crash == has_flag(args@, preview_crash_flags()),
        minimized == has_flag(args@, start_minimized_flags()),
{
}

} // verus!

//! The argument list as a stream of tokens that is read from the left, and
//! the leading part of an invocation: the program's name and the global flags.

use vstd::prelude::*;
use crate::error::{missing_arg, Error};
use crate::text::{same_text, token_views, Token};

verus! {

/// The tokens of an argument list that have not been read yet.
pub struct Args {
    tokens: Vec<String>,
    pos: usize,
}

/// What is left of `tokens` once its first token, if it has one, is read.
pub open spec fn after_first(tokens: Seq<Token>) -> Seq<Token> {
    if tokens.len() > 0 {
        tokens.skip(1)
    } else {
        tokens
    }
}

/// The first token of `tokens`; the empty token where there is none.
pub open spec fn first_or_empty(tokens: Seq<Token>) -> Token {
    if tokens.len() > 0 {
        tokens[0]
    } else {
        Seq::empty()
    }
}

impl View for Args {
    type V = Seq<Token>;

    /// The unread tokens, the next one first.
    closed spec fn view(&self) -> Seq<Token> {
        token_views(self.tokens@).skip(self.pos as int)
    }
}

impl Args {
    #[verifier::type_invariant]
    spec fn within(self) -> bool {
        self.pos <= self.tokens.len()
    }

    /// A stream over `tokens`, none of them read.
    pub fn new(tokens: Vec<String>) -> (args: Args)
        ensures
            args@ == token_views(tokens@),
    {
        assert(token_views(tokens@).skip(0) =~= token_views(tokens@));
        Args { tokens, pos: 0 }
    }

    /// How many tokens are unread.
    pub fn remaining(&self) -> (n: usize)
        ensures
            n == self@.len(),
    {
        proof {
            use_type_invariant(self);
        }
        self.tokens.len() - self.pos
    }

    /// Reads a token that has to be there.
    pub fn req(&mut self) -> (r: Result<String, Error>)
        ensures
            old(self)@.len() > 0 ==> r is Ok && r->Ok_0@ == old(self)@[0],
            old(self)@.len() == 0 ==> r is Err && r->Err_0 == missing_arg(),
            final(self)@ == after_first(old(self)@),
    {
        proof {
            use_type_invariant(&*self);
        }
        if self.pos < self.tokens.len() {
            let token: String = self.tokens[self.pos].clone();
            assert(self@[0] == token@);
            assert(self@.skip(1) =~= token_views(self.tokens@).skip(self.pos + 1));
            self.pos = self.pos + 1;
            Ok(token)
        } else {
            Err(Error::WrongNumberOfArgs { expected: 1, received: 0 })
        }
    }

    /// Reads a token that may be missing; the empty string stands for a
    /// missing one.
    pub fn opt(&mut self) -> (token: String)
        ensures
            token@ == first_or_empty(old(self)@),
            final(self)@ == after_first(old(self)@),
    {
        match self.req() {
            Ok(token) => token,
            Err(_) => String::new(),
        }
    }
}

/// Where the reading of the leading part stands: the token that is the
/// action unless it turns out to be a global flag, and the tokens behind it.
pub struct Scan {
    pub current: Token,
    pub rest: Seq<Token>,
}

/// One global flag, looked for once. `current` is the flag only if it is
/// `name` and a value follows it; the value is then read, and the token
/// behind the value becomes the new `current`, which has to be there. In
/// every other case nothing is read and the value is empty.
pub open spec fn take_flag(scan: Scan, name: Token) -> Result<(Token, Scan), Error> {
    if scan.current == name && scan.rest.len() > 0 {
        if scan.rest.len() > 1 {
            Ok((scan.rest[0], Scan { current: scan.rest[1], rest: scan.rest.skip(2) }))
        } else {
            Err(missing_arg())
        }
    } else {
        Ok((Seq::empty(), scan))
    }
}

/// Looks once for the global flag `name` in front of the action: the step
/// that `take_flag` describes, on the stream `args` and the token
/// `maybe_action` read last.
pub fn param(args: &mut Args, maybe_action: &mut String, name: &str) -> (r: Result<String, Error>)
    ensures
        match take_flag(Scan { current: old(maybe_action)@, rest: old(args)@ }, name@) {
            Ok((value, scan)) => r is Ok && r->Ok_0@ == value && final(maybe_action)@
                == scan.current && final(args)@ == scan.rest,
            Err(e) => r is Err && r->Err_0 == e,
        },
{
    if same_text(maybe_action.as_str(), name) && args.remaining() > 0 {
        let ghost before = args@;
        let value: String = args.opt();
        let next = args.req();
        match next {
            Ok(token) => {
                assert(before.skip(1).skip(1) =~= before.skip(2));
                assert(before.skip(1)[0] == before[1]);
                *maybe_action = token;
                Ok(value)
            },
            Err(e) => Err(e),
        }
    } else {
        Ok(String::new())
    }
}

/// The leading part of an invocation.
#[derive(Debug, Clone, PartialEq, Eq)]
pub struct GlobalArgs {
    /// The value of `--file`; empty where the flag is not given.
    pub file: String,
    /// The value of `--template`; empty where the flag is not given.
    pub template: String,
    /// The value of `--toolchain`; empty where the flag is not given.
    pub toolchain: String,
    /// The token that names the action.
    pub action: String,
}

/// What a `GlobalArgs` holds.
pub struct GlobalsView {
    pub file: Token,
    pub template: Token,
    pub toolchain: Token,
    pub action: Token,
}

impl View for GlobalArgs {
    type V = GlobalsView;

    open spec fn view(&self) -> GlobalsView {
        GlobalsView {
            file: self.file@,
            template: self.template@,
            toolchain: self.toolchain@,
            action: self.action@,
        }
    }
}

/// The leading part of the argument list `argv`, and the tokens behind the
/// action token. The first token is the program's name and is dropped. The
/// global flags are looked for once each and in this order: `--file`,
/// `--template`, `--toolchain`; a token that is none of them where its turn
/// comes is the action token, so a flag out of order, or given twice, or
/// given behind the action, is not a flag. The program's name and the action
/// token have to be there.
pub open spec fn globals_spec(argv: Seq<Token>) -> Result<(GlobalsView, Seq<Token>), Error> {
    if argv.len() < 2 {
        Err(missing_arg())
    } else {
        match take_flag(Scan { current: argv[1], rest: argv.skip(2) }, "--file"@) {
            Err(e) => Err(e),
            Ok((file, s1)) => match take_flag(s1, "--template"@) {
                Err(e) => Err(e),
                Ok((template, s2)) => match take_flag(s2, "--toolchain"@) {
                    Err(e) => Err(e),
                    Ok((toolchain, s3)) => Ok(
                        (GlobalsView { file, template, toolchain, action: s3.current }, s3.rest),
                    ),
                },
            },
        }
    }
}

/// Reads the leading part of an invocation from `args`, which stands at the
/// program's name, and leaves `args` behind the action token.
pub fn parse_globals(args: &mut Args) -> (r: Result<GlobalArgs, Error>)
    ensures
        match globals_spec(old(args)@) {
            Ok((globals, rest)) => r is Ok && r->Ok_0@ == globals && final(args)@ == rest,
            Err(e) => r is Err && r->Err_0 == e,
        },
{
    let ghost argv = args@;
    if args.remaining() < 2 {
        return Err(Error::WrongNumberOfArgs { expected: 1, received: 0 });
    }
    let _program: String = args.opt();
    let mut maybe_action: String = args.opt();
    assert(argv.skip(1).skip(1) =~= argv.skip(2));
    assert(argv.skip(1)[0] == argv[1]);
    let file: String = match param(args, &mut maybe_action, "--file") {
        Ok(value) => value,
        Err(e) => {
            return Err(e);
        },
    };
    let template: String = match param(args, &mut maybe_action, "--template") {
        Ok(value) => value,
        Err(e) => {
            return Err(e);
        },
    };
    let toolchain: String = match param(args, &mut maybe_action, "--toolchain") {
        Ok(value) => value,
        Err(e) => {
            return Err(e);
        },
    };
    Ok(GlobalArgs { file, template, toolchain, action: maybe_action })
}

} // verus!

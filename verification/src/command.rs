//! Reading the command's arguments: which verb is meant and which page.

use vstd::prelude::*;
use vstd::string::StringExecFns;
use crate::error::Error;
use crate::text::has_prefix;

verus! {

/// The operation asked of the scraping service. Each verb has its own
/// endpoint; only `Scrape` can be reached from the command's arguments.
#[derive(Debug, Clone, Copy, PartialEq, Eq, Structural)]
pub enum Verb {
    /// Fetch a single page.
    Scrape,
    /// Follow links from a page. The service offers it; the command does not
    /// yet.
    Crawl,
}

impl Verb {
    /// The keyword that stands for this verb.
    pub open spec fn name_spec(self) -> Seq<char> {
        match self {
            Verb::Scrape => "scrape"@,
            Verb::Crawl => "crawl"@,
        }
    }

    /// The path of this verb's endpoint below the service's base address.
    pub open spec fn endpoint_spec(self) -> Seq<char> {
        match self {
            Verb::Scrape => "/v1/scrape"@,
            Verb::Crawl => "/v1/crawl"@,
        }
    }

    /// The keyword that stands for this verb.
    pub fn name(&self) -> (s: &'static str)
        ensures
            s@ == self.name_spec(),
    {
        match self {
            Verb::Scrape => "scrape",
            Verb::Crawl => "crawl",
        }
    }

    /// The path of this verb's endpoint below the service's base address.
    pub fn endpoint(&self) -> (s: &'static str)
        ensures
            s@ == self.endpoint_spec(),
    {
        match self {
            Verb::Scrape => "/v1/scrape",
            Verb::Crawl => "/v1/crawl",
        }
    }

    /// The verb that a keyword stands for, if it stands for one.
    pub open spec fn named(name: Seq<char>) -> Option<Verb> {
        if name == Verb::Scrape.name_spec() {
            Some(Verb::Scrape)
        } else if name == Verb::Crawl.name_spec() {
            Some(Verb::Crawl)
        } else {
            None
        }
    }

    /// Every verb is found again by its own keyword.
    pub proof fn lemma_named_by_own_name(self)
        ensures
            Verb::named(self.name_spec()) == Some(self),
    {
        reveal_strlit("scrape");
        reveal_strlit("crawl");
        assert("scrape"@.len() == 6 && "crawl"@.len() == 5);
    }

    /// Looks a keyword up in the table of verbs. A keyword outside the table
    /// is `InvalidVerb`.
    pub fn from_name(name: &str) -> (r: Result<Verb, Error>)
        ensures
            r == match Verb::named(name@) {
                Some(verb) => Ok::<Verb, Error>(verb),
                None => Err::<Verb, Error>(Error::InvalidVerb),
            },
    {
        let wanted = String::from_str(name);
        if wanted == String::from_str("scrape") {
            Ok(Verb::Scrape)
        } else if wanted == String::from_str("crawl") {
            Ok(Verb::Crawl)
        } else {
            Err(Error::InvalidVerb)
        }
    }
}

/// The name of the command that this library serves.
pub open spec fn command_name_spec() -> Seq<char> {
    "firecrawl"@
}

/// The prefix that every accepted target address starts with.
pub open spec fn scheme_prefix_spec() -> Seq<char> {
    "http"@
}

/// Tells whether `name` is the command that this library serves.
pub fn is_supported_command(name: &str) -> (b: bool)
    ensures
        b == (name@ == command_name_spec()),
{
    String::from_str(name) == String::from_str("firecrawl")
}

/// What the argument validator owes on a command name and an argument list:
/// the verb and the target address, or the failure.
pub open spec fn validate_spec(command_name: Seq<char>, args: Seq<Seq<char>>) -> Result<
    (Verb, Seq<char>),
    Error,
> {
    if command_name != command_name_spec() {
        Err(Error::UnknownCommand)
    } else if args.len() == 0 {
        Err(Error::MissingArgument)
    } else if args.len() > 1 {
        Err(Error::TooManyArguments)
    } else if !scheme_prefix_spec().is_prefix_of(args[0]) {
        Err(Error::UnsupportedScheme)
    } else {
        Ok((Verb::Scrape, args[0]))
    }
}

/// The views of a list of strings.
pub open spec fn views(args: Seq<String>) -> Seq<Seq<char>> {
    args.map_values(|s: String| s@)
}

/// Reads the command's arguments.
///
/// Succeeds exactly when the command is the supported one and there is a
/// single argument that starts with `http`; the verb is then `Scrape` and the
/// address is that argument, unchanged. Every other input is rejected with
/// the failure that names what is wrong with it.
pub fn validate(command_name: &str, args: &Vec<String>) -> (r: Result<(Verb, String), Error>)
    ensures
        match validate_spec(command_name@, views(args@)) {
            Ok((verb, url)) => r is Ok && r->Ok_0.0 == verb && r->Ok_0.1@ == url,
            Err(e) => r == Err::<(Verb, String), Error>(e),
        },
        r is Ok <==> command_name@ == command_name_spec() && args@.len() == 1
            && scheme_prefix_spec().is_prefix_of(args@[0]@),
        r is Ok ==> r->Ok_0.0 == Verb::Scrape && r->Ok_0.1@ == args@[0]@,
{
    if !is_supported_command(command_name) {
        return Err(Error::UnknownCommand);
    }
    if args.len() == 0 {
        return Err(Error::MissingArgument);
    }
    if args.len() > 1 {
        return Err(Error::TooManyArguments);
    }
    assert(views(args@)[0] == args@[0]@);
    if !has_prefix(args[0].as_str(), "http") {
        return Err(Error::UnsupportedScheme);
    }
    Ok((Verb::Scrape, args[0].clone()))
}

/// A way to complete a partly typed argument.
#[derive(Debug, Clone, PartialEq, Eq)]
pub struct Completion {
    /// What is shown for this completion.
    pub label: String,
    /// What is put into the command when the completion is accepted.
    pub new_text: String,
    /// Whether accepting the completion runs the command.
    pub run_command: bool,
}

/// Offers completions for a partly typed argument list: none for the
/// supported command, and a failure that quotes the name for any other.
pub fn complete(command_name: &str, partial_args: &Vec<String>) -> (r: Result<
    Vec<Completion>,
    String,
>)
    ensures
        command_name@ == command_name_spec() ==> r is Ok && r->Ok_0@.len() == 0,
        command_name@ != command_name_spec() ==> r is Err && r->Err_0@
            == "unknown slash command: \""@ + command_name@ + "\""@,
{
    if is_supported_command(command_name) {
        Ok(Vec::new())
    } else {
        Err(String::from_str("unknown slash command: \"").concat(command_name).concat("\""))
    }
}

} // verus!

//! The server builder: schema text and registrations are gathered, then
//! validated into a configuration that is ready to be compiled.

use crate::config::{GraphQLConfig, GraphQLConfigView};
use crate::error::{N1Error, ResolverError};
use crate::n1::{violations, N1Detector};
use crate::parser::{config_of_text, parse_sdl, ParseError};
use crate::registry::TraitRegistry;
use crate::text::{has_prefix, join, joined};
use std::time::Duration;
use vstd::prelude::*;
use vstd::std_specs::convert::FromSpecImpl;

verus! {

/// The time span of that many milliseconds.
pub uninterp spec fn milliseconds(count: u64) -> Duration;

/// Calls `Duration::from_millis`. The contract names the result: the span of
/// that many milliseconds.
#[verifier::external_body]
fn duration_from_millis(count: u64) -> (span: Duration)
    ensures
        span == milliseconds(count),
{
    Duration::from_millis(count)
}

/// Why a server could not be built.
#[derive(Debug)]
pub enum ServerError {
    /// The schema text was not taken by the parser; the text is that of the
    /// parse error.
    Parse(String),
    /// The schema could not be compiled against the registry.
    Resolver(ResolverError),
    /// Fields in list context lack batching; all of them are listed.
    N1Detection(Vec<N1Error>),
    /// The builder was not given what it needs.
    Config(String),
}

impl ServerError {
    /// The text of the error.
    pub open spec fn text(self) -> Seq<char> {
        match self {
            ServerError::Parse(detail) => "Parse error: "@ + detail@,
            ServerError::Resolver(error) => "Resolver error: "@ + error.text(),
            ServerError::N1Detection(_) => "N+1 query detected"@,
            ServerError::Config(detail) => "Configuration error: "@ + detail@,
        }
    }

    /// The error as text.
    pub fn to_string(&self) -> (text: String)
        ensures
            text@ == self.text(),
    {
        match self {
            ServerError::Parse(detail) => {
                let mut text = "Parse error: ".to_owned();
                text.append(detail.as_str());
                text
            },
            ServerError::Resolver(error) => {
                let mut text = "Resolver error: ".to_owned();
                let detail = error.to_string();
                text.append(detail.as_str());
                text
            },
            ServerError::N1Detection(_) => "N+1 query detected".to_owned(),
            ServerError::Config(detail) => {
                let mut text = "Configuration error: ".to_owned();
                text.append(detail.as_str());
                text
            },
        }
    }
}

impl From<ResolverError> for ServerError {
    fn from(error: ResolverError) -> (wrapped: ServerError) {
        ServerError::Resolver(error)
    }
}

impl FromSpecImpl<ResolverError> for ServerError {
    open spec fn obeys_from_spec() -> bool {
        true
    }

    open spec fn from_spec(error: ResolverError) -> ServerError {
        ServerError::Resolver(error)
    }
}

/// A server in the making: schema text fragments in the order given,
/// registrations, and tunables that are handed on as they are.
pub struct GraphQLServerBuilder<R, B> {
    sdl_parts: Vec<String>,
    registry: TraitRegistry<R, B>,
    batch_delay: Duration,
    max_batch_size: usize,
    validate_n1: bool,
}

/// A builder whose schema text has been parsed and, unless that was skipped,
/// found free of N+1 risks.
pub struct ValidatedServerBuilder<R, B> {
    config: GraphQLConfig,
    registry: TraitRegistry<R, B>,
    batch_delay: Duration,
    max_batch_size: usize,
}

impl<R, B> ValidatedServerBuilder<R, B> {
    /// The configuration of the schema.
    pub closed spec fn config(self) -> GraphQLConfigView {
        self.config@
    }

    /// The registry, as it was when the builder was validated.
    pub closed spec fn registry(self) -> TraitRegistry<R, B> {
        self.registry
    }

    /// The delay before a batch is sent.
    pub closed spec fn delay(self) -> Duration {
        self.batch_delay
    }

    /// The largest number of keys in one batch.
    pub closed spec fn batch_size(self) -> usize {
        self.max_batch_size
    }

    /// Takes the builder apart: the configuration, the registry, the batch
    /// delay and the largest batch size, for the schema to be compiled from.
    pub fn into_parts(self) -> (parts: (GraphQLConfig, TraitRegistry<R, B>, Duration, usize))
        ensures
            parts.0@ == self.config(),
            parts.1 == self.registry(),
            parts.2 == self.delay(),
            parts.3 == self.batch_size(),
    {
        (self.config, self.registry, self.batch_delay, self.max_batch_size)
    }
}

impl<R, B> GraphQLServerBuilder<R, B> {
    /// The schema text fragments, in the order given.
    pub closed spec fn parts(self) -> Seq<Seq<char>> {
        self.sdl_parts.deep_view()
    }

    /// The registry with the registrations so far.
    pub closed spec fn registry(self) -> TraitRegistry<R, B> {
        self.registry
    }

    /// The delay before a batch is sent.
    pub closed spec fn delay(self) -> Duration {
        self.batch_delay
    }

    /// The largest number of keys in one batch.
    pub closed spec fn batch_size(self) -> usize {
        self.max_batch_size
    }

    /// Whether validation runs the N+1 detector.
    pub closed spec fn detects(self) -> bool {
        self.validate_n1
    }

    /// The schema text that is parsed: the fragments, each on a new line.
    pub open spec fn sdl_text(self) -> Seq<char> {
        joined(self.parts(), "\n"@)
    }

    /// A builder without schema text or registrations, with a batch delay of
    /// one millisecond, at most 100 keys in a batch, and N+1 detection on.
    pub fn new() -> (builder: Self)
        ensures
            builder.parts() == Seq::<Seq<char>>::empty(),
            builder.registry().resolvers() == Map::<Seq<char>, R>::empty(),
            builder.registry().batch_resolvers() == Map::<Seq<char>, B>::empty(),
            builder.delay() == milliseconds(1),
            builder.batch_size() == 100,
            builder.detects(),
    {
        let builder = GraphQLServerBuilder {
            sdl_parts: Vec::new(),
            registry: TraitRegistry::new(),
            batch_delay: duration_from_millis(1),
            max_batch_size: 100,
            validate_n1: true,
        };
        builder
    }

    /// Adds a fragment of schema text after those given before.
    pub fn sdl(self, sdl: &str) -> (builder: Self)
        ensures
            builder.parts() == self.parts().push(sdl@),
            builder.registry() == self.registry(),
            builder.delay() == self.delay(),
            builder.batch_size() == self.batch_size(),
            builder.detects() == self.detects(),
    {
        let mut builder = self;
        builder.sdl_parts.push(sdl.to_owned());
        builder
    }

    /// Registers a resolver under its name; a later one of the same name
    /// replaces it.
    pub fn register_resolver(self, name: String, resolver: R) -> (builder: Self)
        ensures
            builder.registry().resolvers() == self.registry().resolvers().insert(name@, resolver),
            builder.registry().batch_resolvers() == self.registry().batch_resolvers(),
            builder.parts() == self.parts(),
            builder.delay() == self.delay(),
            builder.batch_size() == self.batch_size(),
            builder.detects() == self.detects(),
    {
        let mut builder = self;
        builder.registry.register_resolver(name, resolver);
        builder
    }

    /// Registers a batch resolver under its name; a later one of the same
    /// name replaces it.
    pub fn register_batch_resolver(self, name: String, resolver: B) -> (builder: Self)
        ensures
            builder.registry().batch_resolvers() == self.registry().batch_resolvers().insert(
                name@,
                resolver,
            ),
            builder.registry().resolvers() == self.registry().resolvers(),
            builder.parts() == self.parts(),
            builder.delay() == self.delay(),
            builder.batch_size() == self.batch_size(),
            builder.detects() == self.detects(),
    {
        let mut builder = self;
        builder.registry.register_batch_resolver(name, resolver);
        builder
    }

    /// Sets the delay before a batch is sent.
    pub fn batch_delay(self, delay: Duration) -> (builder: Self)
        ensures
            builder.delay() == delay,
            builder.parts() == self.parts(),
            builder.registry() == self.registry(),
            builder.batch_size() == self.batch_size(),
            builder.detects() == self.detects(),
    {
        let mut builder = self;
        builder.batch_delay = delay;
        builder
    }

    /// Sets the largest number of keys in one batch.
    pub fn max_batch_size(self, size: usize) -> (builder: Self)
        ensures
            builder.batch_size() == size,
            builder.parts() == self.parts(),
            builder.registry() == self.registry(),
            builder.delay() == self.delay(),
            builder.detects() == self.detects(),
    {
        let mut builder = self;
        builder.max_batch_size = size;
        builder
    }

    /// Turns N+1 detection off.
    pub fn skip_n1_validation(self) -> (builder: Self)
        ensures
            !builder.detects(),
            builder.parts() == self.parts(),
            builder.registry() == self.registry(),
            builder.delay() == self.delay(),
            builder.batch_size() == self.batch_size(),
    {
        let mut builder = self;
        builder.validate_n1 = false;
        builder
    }

    /// Validates the builder. Without any schema text the outcome is a
    /// `Config` error. Else the fragments are joined, each on a new line, and
    /// parsed, and the outcome is that of [`Self::validate_parsed`]: a `Parse`
    /// error where the parser did not take the text, `N1Detection` where the
    /// configuration has violations and detection was not skipped, and else
    /// the validated builder.
    pub fn validate(self) -> (outcome: Result<ValidatedServerBuilder<R, B>, ServerError>)
        ensures
            self.parts().len() == 0 ==> (outcome matches Err(ServerError::Config(detail))
                && detail@ == "SDL not provided"@),
            self.parts().len() > 0 ==> match outcome {
                Ok(validated) => {
                    &&& validated.config() == config_of_text(self.sdl_text())
                    &&& self.detects() ==> violations(
                        validated.config(),
                        self.registry().batch_names(),
                    ).len() == 0
                    &&& validated.registry() == self.registry()
                    &&& validated.delay() == self.delay()
                    &&& validated.batch_size() == self.batch_size()
                },
                Err(ServerError::Parse(detail)) => has_prefix(detail@, "Failed to parse SDL: "@),
                Err(ServerError::N1Detection(errors)) => {
                    &&& self.detects()
                    &&& errors.deep_view() == violations(
                        config_of_text(self.sdl_text()),
                        self.registry().batch_names(),
                    )
                    &&& errors@.len() > 0
                },
                Err(_) => false,
            },
    {
        if self.sdl_parts.len() == 0 {
            return Err(ServerError::Config("SDL not provided".to_owned()));
        }
        let sdl = join(&self.sdl_parts, "\n");
        let parsed = parse_sdl(sdl.as_str());
        proof {
            if parsed is Err {
                let prefix = "Failed to parse SDL: "@;
                assert(parsed->Err_0.text().subrange(0, prefix.len() as int) =~= prefix);
            }
        }
        self.validate_parsed(parsed)
    }

    /// Validates the builder against what parsing its schema text gave. A
    /// parse error gives `Parse` with the text of the error. A configuration
    /// with violations gives `N1Detection` with all of them, unless detection
    /// was skipped. Else the builder is validated, with the configuration and
    /// with the registry and tunables it had.
    pub fn validate_parsed(self, parsed: Result<GraphQLConfig, ParseError>) -> (outcome: Result<
        ValidatedServerBuilder<R, B>,
        ServerError,
    >)
        ensures
            match parsed {
                Err(error) => outcome matches Err(ServerError::Parse(detail)) && detail@
                    == error.text(),
                Ok(config) => if self.detects() && violations(
                    config@,
                    self.registry().batch_names(),
                ).len() > 0 {
                    outcome matches Err(ServerError::N1Detection(errors)) && errors.deep_view()
                        == violations(config@, self.registry().batch_names())
                } else {
                    &&& outcome matches Ok(validated)
                    &&& validated.config() == config@
                    &&& validated.registry() == self.registry()
                    &&& validated.delay() == self.delay()
                    &&& validated.batch_size() == self.batch_size()
                },
            },
    {
        let config = match parsed {
            Ok(config) => config,
            Err(error) => {
                return Err(ServerError::Parse(error.to_string()));
            },
        };
        if self.validate_n1 {
            let detector = N1Detector::new(&config, &self.registry);
            match detector.detect() {
                Ok(()) => {},
                Err(errors) => {
                    return Err(ServerError::N1Detection(errors));
                },
            }
        }
        Ok(
            ValidatedServerBuilder {
                config,
                registry: self.registry,
                batch_delay: self.batch_delay,
                max_batch_size: self.max_batch_size,
            },
        )
    }
}

impl<R, B> Default for GraphQLServerBuilder<R, B> {
    fn default() -> (builder: Self)
        ensures
            builder.parts() == Seq::<Seq<char>>::empty(),
            builder.registry().resolvers() == Map::<Seq<char>, R>::empty(),
            builder.registry().batch_resolvers() == Map::<Seq<char>, B>::empty(),
            builder.delay() == milliseconds(1),
            builder.batch_size() == 100,
            builder.detects(),
    {
        GraphQLServerBuilder::new()
    }
}

} // verus!

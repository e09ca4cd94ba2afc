//! What can go wrong, and the message each failure is reported with.

use crate::provider::Provider;
use vstd::prelude::*;
use vstd::string::*;

verus! {

/// Which part of handling the settings file failed.
#[derive(Debug, Clone, Copy, PartialEq, Eq, Structural)]
pub enum ConfigFault {
    /// Reading or writing the file.
    Io,
    /// Turning the document into settings or back.
    Format,
}

/// Why an input was turned down before anything was changed.
#[derive(Debug, Clone, PartialEq, Eq)]
pub enum Invalid {
    /// The address is empty or blank.
    EmptyAddress,
    /// The alias is empty or longer than five characters.
    AliasLength,
    /// No alias of that name is stored.
    AliasNotFound(String),
}

/// Where a credential was found to be missing.
#[derive(Debug, Clone, Copy, PartialEq, Eq, Structural)]
pub enum Stage {
    /// While choosing the provider, from the stored settings.
    Resolution,
    /// While preparing the request, in the provider itself.
    Request,
}

/// The kind of exchange that failed.
#[derive(Debug, Clone, Copy, PartialEq, Eq, Structural)]
pub enum Channel {
    /// An HTTP request, or a response with a failure status.
    Http,
    /// A remote procedure call.
    Rpc,
    /// Building the request's address.
    Url,
}

/// Every failure the library reports.
#[derive(Debug, Clone, PartialEq, Eq)]
pub enum Error {
    ConfigIo { fault: ConfigFault, cause: String },
    Validation(Invalid),
    UnknownProvider { input: String },
    MissingCredential { provider: Provider, stage: Stage },
    NoAddressSpecified,
    LocationNotFound { location: String },
    Transport { channel: Channel, upstream: String },
}

/// The list of providers that an unknown token is answered with.
pub open spec fn available_providers() -> Seq<char> {
    "'MockWeather' (mock), 'GrpcMockWeather' (grpc), 'OpenWeather' (ow), 'WeatherApi' (wa)"@
}

/// A rejected input as plain values.
pub enum InvalidView {
    EmptyAddress,
    AliasLength,
    AliasNotFound(Seq<char>),
}

/// A failure as plain values.
pub enum ErrorView {
    ConfigIo { fault: ConfigFault, cause: Seq<char> },
    Validation(InvalidView),
    UnknownProvider { input: Seq<char> },
    MissingCredential { provider: Provider, stage: Stage },
    NoAddressSpecified,
    LocationNotFound { location: Seq<char> },
    Transport { channel: Channel, upstream: Seq<char> },
}

impl InvalidView {
    pub open spec fn text(self) -> Seq<char> {
        match self {
            InvalidView::EmptyAddress => "Address cannot be empty. Use --address <ADDRESS>"@,
            InvalidView::AliasLength => "Alias must be between 1 and 5 characters long."@,
            InvalidView::AliasNotFound(alias) => "Alias '"@ + alias + "' not found"@,
        }
    }
}

impl ErrorView {
    /// The message of a failure, as it is shown to the user.
    pub open spec fn text(self) -> Seq<char> {
        match self {
            ErrorView::ConfigIo { fault: ConfigFault::Io, cause } => "I/O error: "@ + cause,
            ErrorView::ConfigIo { fault: ConfigFault::Format, cause } => "Serialization error: "@
                + cause,
            ErrorView::Validation(invalid) => invalid.text(),
            ErrorView::UnknownProvider { input } => "Unknown provider: '"@ + input
                + "'.\nAvailable providers: "@ + available_providers(),
            ErrorView::MissingCredential { provider, stage: Stage::Resolution } =>
                "API key not found for provider '"@ + provider.spec_name()
                    + "'. Please configure it first."@,
            ErrorView::MissingCredential { provider, stage: Stage::Request } => "'"@
                + provider.spec_name()
                + "' API key not set. Please set it using: 'weather provider "@
                + provider.spec_id() + " --key <API_KEY>'"@,
            ErrorView::NoAddressSpecified =>
                "No address specified and no default address alias found. Use --address <LOCATION> or set a default alias."@,
            ErrorView::LocationNotFound { location } => "Location not found: '"@ + location + "'"@,
            ErrorView::Transport { channel: Channel::Http, upstream } => "HTTP error: "@ + upstream,
            ErrorView::Transport { channel: Channel::Rpc, upstream } => "gRPC error: "@ + upstream,
            ErrorView::Transport { channel: Channel::Url, upstream } => "Failed to build URL: "@
                + upstream,
        }
    }
}

impl View for Invalid {
    type V = InvalidView;

    open spec fn view(&self) -> InvalidView {
        match self {
            Invalid::EmptyAddress => InvalidView::EmptyAddress,
            Invalid::AliasLength => InvalidView::AliasLength,
            Invalid::AliasNotFound(alias) => InvalidView::AliasNotFound(alias@),
        }
    }
}

impl View for Error {
    type V = ErrorView;

    open spec fn view(&self) -> ErrorView {
        match self {
            Error::ConfigIo { fault, cause } => ErrorView::ConfigIo { fault: *fault, cause: cause@ },
            Error::Validation(invalid) => ErrorView::Validation(invalid@),
            Error::UnknownProvider { input } => ErrorView::UnknownProvider { input: input@ },
            Error::MissingCredential { provider, stage } => ErrorView::MissingCredential {
                provider: *provider,
                stage: *stage,
            },
            Error::NoAddressSpecified => ErrorView::NoAddressSpecified,
            Error::LocationNotFound { location } => ErrorView::LocationNotFound {
                location: location@,
            },
            Error::Transport { channel, upstream } => ErrorView::Transport {
                channel: *channel,
                upstream: upstream@,
            },
        }
    }
}

impl Error {
    /// Writes the message of this failure.
    pub fn message(&self) -> (m: String)
        ensures
            m@ == self@.text(),
    {
        let mut out = String::new();
        match self {
            Error::ConfigIo { fault, cause } => {
                match fault {
                    ConfigFault::Io => out.append("I/O error: "),
                    ConfigFault::Format => out.append("Serialization error: "),
                }
                out.append(cause.as_str());
            },
            Error::Validation(invalid) => {
                match invalid {
                    Invalid::EmptyAddress => out.append(
                        "Address cannot be empty. Use --address <ADDRESS>",
                    ),
                    Invalid::AliasLength => out.append(
                        "Alias must be between 1 and 5 characters long.",
                    ),
                    Invalid::AliasNotFound(alias) => {
                        out.append("Alias '");
                        out.append(alias.as_str());
                        out.append("' not found");
                    },
                }
            },
            Error::UnknownProvider { input } => {
                out.append("Unknown provider: '");
                out.append(input.as_str());
                out.append("'.\nAvailable providers: ");
                out.append(
                    "'MockWeather' (mock), 'GrpcMockWeather' (grpc), 'OpenWeather' (ow), 'WeatherApi' (wa)",
                );
            },
            Error::MissingCredential { provider, stage } => {
                match stage {
                    Stage::Resolution => {
                        out.append("API key not found for provider '");
                        out.append(provider.name());
                        out.append("'. Please configure it first.");
                    },
                    Stage::Request => {
                        out.append("'");
                        out.append(provider.name());
                        out.append("' API key not set. Please set it using: 'weather provider ");
                        out.append(provider.id());
                        out.append(" --key <API_KEY>'");
                    },
                }
            },
            Error::NoAddressSpecified => {
                out.append(
                    "No address specified and no default address alias found. Use --address <LOCATION> or set a default alias.",
                );
            },
            Error::LocationNotFound { location } => {
                out.append("Location not found: '");
                out.append(location.as_str());
                out.append("'");
            },
            Error::Transport { channel, upstream } => {
                match channel {
                    Channel::Http => out.append("HTTP error: "),
                    Channel::Rpc => out.append("gRPC error: "),
                    Channel::Url => out.append("Failed to build URL: "),
                }
                out.append(upstream.as_str());
            },
        }
        assert(out@ =~= self@.text());
        out
    }
}

} // verus!

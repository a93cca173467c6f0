//! The typed error domain of the quote-verification subsystem.
//!
//! The native library reports every outcome as a 32-bit status code: zero for
//! success and a closed space of documented failure codes otherwise.
//! [`status_to_result`] maps that space totally onto [`Quote3Error`]: each
//! recognized failure code has its own variant, and any code outside the
//! recognized space is carried through unchanged in [`Quote3Error::Unknown`],
//! so that no two distinct native codes are ever reported as the same error.

use vstd::prelude::*;

verus! {

/// The native status code that reports success.
pub const STATUS_SUCCESS: u32 = 0;

/// An error reported by the quote-verification subsystem, mirroring the
/// native status space one to one.
#[derive(Debug, Clone, Copy, Hash, PartialEq, Eq, Structural)]
pub enum Quote3Error {
    /// An unexpected internal error occurred.
    Unexpected,
    /// One of the parameters passed to the native call was invalid.
    InvalidParameter,
    /// Not enough memory is available to complete the operation.
    OutOfMemory,
    /// The expected ECDSA identifier does not match the value stored in the ECDSA blob.
    EcdsaIdMismatch,
    /// The ECDSA blob pathname is too large.
    PathnameBufferOverflow,
    /// Error accessing the ECDSA blob.
    FileAccess,
    /// The cached ECDSA key is invalid.
    StoredKey,
    /// The cached ECDSA key does not match the requested key.
    PubKeyIdMismatch,
    /// The PCE used an incorrect signature scheme.
    InvalidPceSigScheme,
    /// There is a problem with the attestation key blob.
    AttestationKeyBlob,
    /// Unsupported attestation key identifier.
    UnsupportedAttestationKeyId,
    /// Unsupported enclave loading policy.
    UnsupportedLoadingPolicy,
    /// Unable to load the quoting enclave.
    InterfaceUnavailable,
    /// Unable to find the platform library with the dependent APIs.
    PlatformLibUnavailable,
    /// The attestation key does not exist or has not been certified.
    AttestationKeyNotInitialized,
    /// The certification data retrieved from the platform library is invalid.
    InvalidCertDataInAttestationKey,
    /// The platform library does not have any platform certification data.
    NoPlatformCertData,
    /// Not enough memory in the EPC to load the enclave.
    OutOfEpc,
    /// There was a problem verifying an SGX REPORT.
    Report,
    /// Interfacing to the enclave failed due to a power transition.
    EnclaveLost,
    /// Error verifying the application enclave's report.
    InvalidReport,
    /// Unable to load the enclaves.
    EnclaveLoad,
    /// The quoting enclave was unable to generate its own report targeting the application enclave.
    UnableToGenerateQeReport,
    /// The provider library returned an invalid TCB.
    KeyCertification,
    /// Network error when retrieving PCK certificates.
    Network,
    /// Message error when retrieving PCK certificates.
    Message,
    /// The platform does not have the quote verification collateral data available.
    NoQuoteCollateralData,
    /// The quote verifier does not support the certification data in the quote.
    UnsupportedQuoteCertificationData,
    /// The inputted quote format is not supported.
    UnsupportedQuoteFormat,
    /// The QVE was unable to generate its own report targeting the application enclave.
    UnableToGenerateReport,
    /// The signature over the QE report is invalid.
    InvalidQeReportSignature,
    /// The quote verifier does not support the format of the application report in the quote.
    UnsupportedQeReportFormat,
    /// The format of the PCK certificate is unsupported.
    UnsupportedPckCertFormat,
    /// There was an error verifying the PCK certificate signature chain.
    PckCertChain,
    /// The format of the TCB info structure is unsupported.
    UnsupportedTcbInfoFormat,
    /// The PCK certificate platform identity does not match the TCB info platform identity.
    TcbInfoMismatch,
    /// The format of the QE identity structure is unsupported.
    UnsupportedQeIdentityFormat,
    /// The quote's QE does not match the expected QE identity.
    QeIdentityMismatch,
    /// The TCB is out of date.
    TcbOutOfDate,
    /// The TCB is out of date and configuration is needed.
    TcbOutOfDateAndConfigurationNeeded,
    /// The enclave identity is out of date.
    EnclaveIdentityOutOfDate,
    /// The enclave report ISV SVN is out of date.
    EnclaveReportIsvSvnOutOfDate,
    /// The QE identity is out of date.
    QeIdentityOutOfDate,
    /// The TCB info is expired.
    TcbInfoExpired,
    /// The PCK certificate chain contains an expired certificate.
    SgxPckCertChainExpired,
    /// The certificate revocation list has expired.
    SgxCrlExpired,
    /// The signing certificate chain contains an expired certificate.
    SgxSigningCertChainExpired,
    /// The enclave identity has expired.
    SgxEnclaveIdentityExpired,
    /// The PCK certificate is revoked.
    PckRevoked,
    /// The TCB is revoked.
    TcbRevoked,
    /// The TCB needs configuration.
    TcbConfigurationNeeded,
    /// Unable to get the collateral.
    UnableToGetCollateral,
    /// Not enough privilege to perform the operation.
    InvalidPrivilege,
    /// The platform does not have the QVE identity data available.
    NoQveIdentityData,
    /// The format of the certificate revocation list is unsupported.
    UnsupportedCrlFormat,
    /// There was an error verifying the QE identity signature chain.
    QeIdentityChainError,
    /// There was an error verifying the TCB info signature chain.
    TcbInfoChainError,
    /// The supplemental data size or version mismatched between the QVL and the QVE.
    QvlQveMismatch,
    /// The TCB is up to date but software hardening is needed.
    TcbSwHardeningNeeded,
    /// The TCB is up to date but configuration and software hardening are needed.
    TcbConfigurationAndSwHardeningNeeded,
    /// The platform is configured for the out-of-process implementation of quote generation.
    UnsupportedMode,
    /// Cannot open the SGX device.
    NoDevice,
    /// The AESM did not respond or the requested service is not supported.
    ServiceUnavailable,
    /// A network connection or proxy setting issue was encountered.
    NetworkFailure,
    /// The request to the out-of-process service timed out.
    ServiceTimeout,
    /// The requested service is temporarily not available.
    Busy,
    /// Unexpected error from the cache service.
    UnknownMessageResponse,
    /// Error storing the retrieved cached data in persistent memory.
    PersistentStorage,
    /// Message parsing error.
    MessageParsing,
    /// The platform was not found in the cache.
    PlatformUnknown,
    /// The currently configured PCS API version is unknown.
    UnknownApiVersion,
    /// Certificates are not available for this platform.
    CertsUnavailable,
    /// The QVE identity does not match the Intel-signed QVE identity.
    QveIdentityMismatch,
    /// The QVE ISV SVN is smaller than the ISV SVN threshold.
    QveOutOfDate,
    /// The SGX platform software library cannot be loaded.
    PswNotAvailable,
    /// The quote verification collateral version is not supported.
    CollateralVersionNotSupported,
    /// The TDX SEAM module identity does not match the Intel-signed TDX SEAM module.
    TdxModuleMismatch,
    /// The QE identity was not found.
    QeIdentityNotFound,
    /// The TCB info was not found.
    TcbInfoNotFound,
    /// Internal server error.
    InternalServerError,
    /// The supplemental data version is not supported.
    SupplementalDataVersionNotSupported,
    /// The certificate used to establish the SSL session is untrusted.
    RootCaUntrusted,
    /// The current TCB level cannot be found in the platform or enclave TCB info.
    TcbNotSupported,
    /// The configuration file of the quote provider library has a format error.
    ConfigInvalidJson,
    /// Invalid signature during quote verification.
    InvalidSignature,
    /// The QAE identity does not match the Intel-signed QAE identity.
    QaeIdentityMismatch,
    /// The QAE ISV SVN is smaller than the minimum required ISV SVN.
    QaeOutOfDate,
    /// The quote hash of the QAE appraisal result does not match the input quote.
    QaeQuoteHashMismatch,
    /// Report data mismatch when verifying the QAE report and identity.
    ReportDataMismatch,
    /// The upper bound of the native error space, kept to allow better translation.
    Max,
    /// A status code outside the recognized error space, carried through
    /// unchanged.
    Unknown(u32),
}

/// The typed result a native status code denotes: success exactly for the
/// success code, and a distinct error for every other code.
pub open spec fn spec_status_result(status: u32) -> Result<(), Quote3Error> {
    match status {
        0u32 => Ok(()),
        0xE001u32 => Err(Quote3Error::Unexpected),
        0xE002u32 => Err(Quote3Error::InvalidParameter),
        0xE003u32 => Err(Quote3Error::OutOfMemory),
        0xE004u32 => Err(Quote3Error::EcdsaIdMismatch),
        0xE005u32 => Err(Quote3Error::PathnameBufferOverflow),
        0xE006u32 => Err(Quote3Error::FileAccess),
        0xE007u32 => Err(Quote3Error::StoredKey),
        0xE008u32 => Err(Quote3Error::PubKeyIdMismatch),
        0xE009u32 => Err(Quote3Error::InvalidPceSigScheme),
        0xE00Au32 => Err(Quote3Error::AttestationKeyBlob),
        0xE00Bu32 => Err(Quote3Error::UnsupportedAttestationKeyId),
        0xE00Cu32 => Err(Quote3Error::UnsupportedLoadingPolicy),
        0xE00Du32 => Err(Quote3Error::InterfaceUnavailable),
        0xE00Eu32 => Err(Quote3Error::PlatformLibUnavailable),
        0xE00Fu32 => Err(Quote3Error::AttestationKeyNotInitialized),
        0xE010u32 => Err(Quote3Error::InvalidCertDataInAttestationKey),
        0xE011u32 => Err(Quote3Error::NoPlatformCertData),
        0xE012u32 => Err(Quote3Error::OutOfEpc),
        0xE013u32 => Err(Quote3Error::Report),
        0xE014u32 => Err(Quote3Error::EnclaveLost),
        0xE015u32 => Err(Quote3Error::InvalidReport),
        0xE016u32 => Err(Quote3Error::EnclaveLoad),
        0xE017u32 => Err(Quote3Error::UnableToGenerateQeReport),
        0xE018u32 => Err(Quote3Error::KeyCertification),
        0xE019u32 => Err(Quote3Error::Network),
        0xE01Au32 => Err(Quote3Error::Message),
        0xE01Bu32 => Err(Quote3Error::NoQuoteCollateralData),
        0xE01Cu32 => Err(Quote3Error::UnsupportedQuoteCertificationData),
        0xE01Du32 => Err(Quote3Error::UnsupportedQuoteFormat),
        0xE01Eu32 => Err(Quote3Error::UnableToGenerateReport),
        0xE01Fu32 => Err(Quote3Error::InvalidQeReportSignature),
        0xE020u32 => Err(Quote3Error::UnsupportedQeReportFormat),
        0xE021u32 => Err(Quote3Error::UnsupportedPckCertFormat),
        0xE022u32 => Err(Quote3Error::PckCertChain),
        0xE023u32 => Err(Quote3Error::UnsupportedTcbInfoFormat),
        0xE024u32 => Err(Quote3Error::TcbInfoMismatch),
        0xE025u32 => Err(Quote3Error::UnsupportedQeIdentityFormat),
        0xE026u32 => Err(Quote3Error::QeIdentityMismatch),
        0xE027u32 => Err(Quote3Error::TcbOutOfDate),
        0xE028u32 => Err(Quote3Error::TcbOutOfDateAndConfigurationNeeded),
        0xE029u32 => Err(Quote3Error::EnclaveIdentityOutOfDate),
        0xE02Au32 => Err(Quote3Error::EnclaveReportIsvSvnOutOfDate),
        0xE02Bu32 => Err(Quote3Error::QeIdentityOutOfDate),
        0xE02Cu32 => Err(Quote3Error::TcbInfoExpired),
        0xE02Du32 => Err(Quote3Error::SgxPckCertChainExpired),
        0xE02Eu32 => Err(Quote3Error::SgxCrlExpired),
        0xE02Fu32 => Err(Quote3Error::SgxSigningCertChainExpired),
        0xE030u32 => Err(Quote3Error::SgxEnclaveIdentityExpired),
        0xE031u32 => Err(Quote3Error::PckRevoked),
        0xE032u32 => Err(Quote3Error::TcbRevoked),
        0xE033u32 => Err(Quote3Error::TcbConfigurationNeeded),
        0xE034u32 => Err(Quote3Error::UnableToGetCollateral),
        0xE035u32 => Err(Quote3Error::InvalidPrivilege),
        0xE037u32 => Err(Quote3Error::NoQveIdentityData),
        0xE038u32 => Err(Quote3Error::UnsupportedCrlFormat),
        0xE039u32 => Err(Quote3Error::QeIdentityChainError),
        0xE03Au32 => Err(Quote3Error::TcbInfoChainError),
        0xE03Bu32 => Err(Quote3Error::QvlQveMismatch),
        0xE03Cu32 => Err(Quote3Error::TcbSwHardeningNeeded),
        0xE03Du32 => Err(Quote3Error::TcbConfigurationAndSwHardeningNeeded),
        0xE03Eu32 => Err(Quote3Error::UnsupportedMode),
        0xE03Fu32 => Err(Quote3Error::NoDevice),
        0xE040u32 => Err(Quote3Error::ServiceUnavailable),
        0xE041u32 => Err(Quote3Error::NetworkFailure),
        0xE042u32 => Err(Quote3Error::ServiceTimeout),
        0xE043u32 => Err(Quote3Error::Busy),
        0xE044u32 => Err(Quote3Error::UnknownMessageResponse),
        0xE045u32 => Err(Quote3Error::PersistentStorage),
        0xE046u32 => Err(Quote3Error::MessageParsing),
        0xE047u32 => Err(Quote3Error::PlatformUnknown),
        0xE048u32 => Err(Quote3Error::UnknownApiVersion),
        0xE049u32 => Err(Quote3Error::CertsUnavailable),
        0xE050u32 => Err(Quote3Error::QveIdentityMismatch),
        0xE051u32 => Err(Quote3Error::QveOutOfDate),
        0xE052u32 => Err(Quote3Error::PswNotAvailable),
        0xE053u32 => Err(Quote3Error::CollateralVersionNotSupported),
        0xE060u32 => Err(Quote3Error::TdxModuleMismatch),
        0xE061u32 => Err(Quote3Error::QeIdentityNotFound),
        0xE062u32 => Err(Quote3Error::TcbInfoNotFound),
        0xE063u32 => Err(Quote3Error::InternalServerError),
        0xE064u32 => Err(Quote3Error::SupplementalDataVersionNotSupported),
        0xE065u32 => Err(Quote3Error::RootCaUntrusted),
        0xE066u32 => Err(Quote3Error::TcbNotSupported),
        0xE067u32 => Err(Quote3Error::ConfigInvalidJson),
        0xE068u32 => Err(Quote3Error::InvalidSignature),
        0xE070u32 => Err(Quote3Error::QaeIdentityMismatch),
        0xE071u32 => Err(Quote3Error::QaeOutOfDate),
        0xE072u32 => Err(Quote3Error::QaeQuoteHashMismatch),
        0xE073u32 => Err(Quote3Error::ReportDataMismatch),
        0xE0FFu32 => Err(Quote3Error::Max),
        c => Err(Quote3Error::Unknown(c)),
    }
}

/// The native status code a reported error stands for.
pub open spec fn spec_error_code(e: Quote3Error) -> u32 {
    match e {
        Quote3Error::Unexpected => 0xE001,
        Quote3Error::InvalidParameter => 0xE002,
        Quote3Error::OutOfMemory => 0xE003,
        Quote3Error::EcdsaIdMismatch => 0xE004,
        Quote3Error::PathnameBufferOverflow => 0xE005,
        Quote3Error::FileAccess => 0xE006,
        Quote3Error::StoredKey => 0xE007,
        Quote3Error::PubKeyIdMismatch => 0xE008,
        Quote3Error::InvalidPceSigScheme => 0xE009,
        Quote3Error::AttestationKeyBlob => 0xE00A,
        Quote3Error::UnsupportedAttestationKeyId => 0xE00B,
        Quote3Error::UnsupportedLoadingPolicy => 0xE00C,
        Quote3Error::InterfaceUnavailable => 0xE00D,
        Quote3Error::PlatformLibUnavailable => 0xE00E,
        Quote3Error::AttestationKeyNotInitialized => 0xE00F,
        Quote3Error::InvalidCertDataInAttestationKey => 0xE010,
        Quote3Error::NoPlatformCertData => 0xE011,
        Quote3Error::OutOfEpc => 0xE012,
        Quote3Error::Report => 0xE013,
        Quote3Error::EnclaveLost => 0xE014,
        Quote3Error::InvalidReport => 0xE015,
        Quote3Error::EnclaveLoad => 0xE016,
        Quote3Error::UnableToGenerateQeReport => 0xE017,
        Quote3Error::KeyCertification => 0xE018,
        Quote3Error::Network => 0xE019,
        Quote3Error::Message => 0xE01A,
        Quote3Error::NoQuoteCollateralData => 0xE01B,
        Quote3Error::UnsupportedQuoteCertificationData => 0xE01C,
        Quote3Error::UnsupportedQuoteFormat => 0xE01D,
        Quote3Error::UnableToGenerateReport => 0xE01E,
        Quote3Error::InvalidQeReportSignature => 0xE01F,
        Quote3Error::UnsupportedQeReportFormat => 0xE020,
        Quote3Error::UnsupportedPckCertFormat => 0xE021,
        Quote3Error::PckCertChain => 0xE022,
        Quote3Error::UnsupportedTcbInfoFormat => 0xE023,
        Quote3Error::TcbInfoMismatch => 0xE024,
        Quote3Error::UnsupportedQeIdentityFormat => 0xE025,
        Quote3Error::QeIdentityMismatch => 0xE026,
        Quote3Error::TcbOutOfDate => 0xE027,
        Quote3Error::TcbOutOfDateAndConfigurationNeeded => 0xE028,
        Quote3Error::EnclaveIdentityOutOfDate => 0xE029,
        Quote3Error::EnclaveReportIsvSvnOutOfDate => 0xE02A,
        Quote3Error::QeIdentityOutOfDate => 0xE02B,
        Quote3Error::TcbInfoExpired => 0xE02C,
        Quote3Error::SgxPckCertChainExpired => 0xE02D,
        Quote3Error::SgxCrlExpired => 0xE02E,
        Quote3Error::SgxSigningCertChainExpired => 0xE02F,
        Quote3Error::SgxEnclaveIdentityExpired => 0xE030,
        Quote3Error::PckRevoked => 0xE031,
        Quote3Error::TcbRevoked => 0xE032,
        Quote3Error::TcbConfigurationNeeded => 0xE033,
        Quote3Error::UnableToGetCollateral => 0xE034,
        Quote3Error::InvalidPrivilege => 0xE035,
        Quote3Error::NoQveIdentityData => 0xE037,
        Quote3Error::UnsupportedCrlFormat => 0xE038,
        Quote3Error::QeIdentityChainError => 0xE039,
        Quote3Error::TcbInfoChainError => 0xE03A,
        Quote3Error::QvlQveMismatch => 0xE03B,
        Quote3Error::TcbSwHardeningNeeded => 0xE03C,
        Quote3Error::TcbConfigurationAndSwHardeningNeeded => 0xE03D,
        Quote3Error::UnsupportedMode => 0xE03E,
        Quote3Error::NoDevice => 0xE03F,
        Quote3Error::ServiceUnavailable => 0xE040,
        Quote3Error::NetworkFailure => 0xE041,
        Quote3Error::ServiceTimeout => 0xE042,
        Quote3Error::Busy => 0xE043,
        Quote3Error::UnknownMessageResponse => 0xE044,
        Quote3Error::PersistentStorage => 0xE045,
        Quote3Error::MessageParsing => 0xE046,
        Quote3Error::PlatformUnknown => 0xE047,
        Quote3Error::UnknownApiVersion => 0xE048,
        Quote3Error::CertsUnavailable => 0xE049,
        Quote3Error::QveIdentityMismatch => 0xE050,
        Quote3Error::QveOutOfDate => 0xE051,
        Quote3Error::PswNotAvailable => 0xE052,
        Quote3Error::CollateralVersionNotSupported => 0xE053,
        Quote3Error::TdxModuleMismatch => 0xE060,
        Quote3Error::QeIdentityNotFound => 0xE061,
        Quote3Error::TcbInfoNotFound => 0xE062,
        Quote3Error::InternalServerError => 0xE063,
        Quote3Error::SupplementalDataVersionNotSupported => 0xE064,
        Quote3Error::RootCaUntrusted => 0xE065,
        Quote3Error::TcbNotSupported => 0xE066,
        Quote3Error::ConfigInvalidJson => 0xE067,
        Quote3Error::InvalidSignature => 0xE068,
        Quote3Error::QaeIdentityMismatch => 0xE070,
        Quote3Error::QaeOutOfDate => 0xE071,
        Quote3Error::QaeQuoteHashMismatch => 0xE072,
        Quote3Error::ReportDataMismatch => 0xE073,
        Quote3Error::Max => 0xE0FF,
        Quote3Error::Unknown(c) => c,
    }
}

/// Interpret a native status code: success for the success code, and the
/// matching typed error for every other code.
pub fn status_to_result(status: u32) -> (r: Result<(), Quote3Error>)
    ensures
        r == spec_status_result(status),
{
    match status {
        0 => Ok(()),
        0xE001 => Err(Quote3Error::Unexpected),
        0xE002 => Err(Quote3Error::InvalidParameter),
        0xE003 => Err(Quote3Error::OutOfMemory),
        0xE004 => Err(Quote3Error::EcdsaIdMismatch),
        0xE005 => Err(Quote3Error::PathnameBufferOverflow),
        0xE006 => Err(Quote3Error::FileAccess),
        0xE007 => Err(Quote3Error::StoredKey),
        0xE008 => Err(Quote3Error::PubKeyIdMismatch),
        0xE009 => Err(Quote3Error::InvalidPceSigScheme),
        0xE00A => Err(Quote3Error::AttestationKeyBlob),
        0xE00B => Err(Quote3Error::UnsupportedAttestationKeyId),
        0xE00C => Err(Quote3Error::UnsupportedLoadingPolicy),
        0xE00D => Err(Quote3Error::InterfaceUnavailable),
        0xE00E => Err(Quote3Error::PlatformLibUnavailable),
        0xE00F => Err(Quote3Error::AttestationKeyNotInitialized),
        0xE010 => Err(Quote3Error::InvalidCertDataInAttestationKey),
        0xE011 => Err(Quote3Error::NoPlatformCertData),
        0xE012 => Err(Quote3Error::OutOfEpc),
        0xE013 => Err(Quote3Error::Report),
        0xE014 => Err(Quote3Error::EnclaveLost),
        0xE015 => Err(Quote3Error::InvalidReport),
        0xE016 => Err(Quote3Error::EnclaveLoad),
        0xE017 => Err(Quote3Error::UnableToGenerateQeReport),
        0xE018 => Err(Quote3Error::KeyCertification),
        0xE019 => Err(Quote3Error::Network),
        0xE01A => Err(Quote3Error::Message),
        0xE01B => Err(Quote3Error::NoQuoteCollateralData),
        0xE01C => Err(Quote3Error::UnsupportedQuoteCertificationData),
        0xE01D => Err(Quote3Error::UnsupportedQuoteFormat),
        0xE01E => Err(Quote3Error::UnableToGenerateReport),
        0xE01F => Err(Quote3Error::InvalidQeReportSignature),
        0xE020 => Err(Quote3Error::UnsupportedQeReportFormat),
        0xE021 => Err(Quote3Error::UnsupportedPckCertFormat),
        0xE022 => Err(Quote3Error::PckCertChain),
        0xE023 => Err(Quote3Error::UnsupportedTcbInfoFormat),
        0xE024 => Err(Quote3Error::TcbInfoMismatch),
        0xE025 => Err(Quote3Error::UnsupportedQeIdentityFormat),
        0xE026 => Err(Quote3Error::QeIdentityMismatch),
        0xE027 => Err(Quote3Error::TcbOutOfDate),
        0xE028 => Err(Quote3Error::TcbOutOfDateAndConfigurationNeeded),
        0xE029 => Err(Quote3Error::EnclaveIdentityOutOfDate),
        0xE02A => Err(Quote3Error::EnclaveReportIsvSvnOutOfDate),
        0xE02B => Err(Quote3Error::QeIdentityOutOfDate),
        0xE02C => Err(Quote3Error::TcbInfoExpired),
        0xE02D => Err(Quote3Error::SgxPckCertChainExpired),
        0xE02E => Err(Quote3Error::SgxCrlExpired),
        0xE02F => Err(Quote3Error::SgxSigningCertChainExpired),
        0xE030 => Err(Quote3Error::SgxEnclaveIdentityExpired),
        0xE031 => Err(Quote3Error::PckRevoked),
        0xE032 => Err(Quote3Error::TcbRevoked),
        0xE033 => Err(Quote3Error::TcbConfigurationNeeded),
        0xE034 => Err(Quote3Error::UnableToGetCollateral),
        0xE035 => Err(Quote3Error::InvalidPrivilege),
        0xE037 => Err(Quote3Error::NoQveIdentityData),
        0xE038 => Err(Quote3Error::UnsupportedCrlFormat),
        0xE039 => Err(Quote3Error::QeIdentityChainError),
        0xE03A => Err(Quote3Error::TcbInfoChainError),
        0xE03B => Err(Quote3Error::QvlQveMismatch),
        0xE03C => Err(Quote3Error::TcbSwHardeningNeeded),
        0xE03D => Err(Quote3Error::TcbConfigurationAndSwHardeningNeeded),
        0xE03E => Err(Quote3Error::UnsupportedMode),
        0xE03F => Err(Quote3Error::NoDevice),
        0xE040 => Err(Quote3Error::ServiceUnavailable),
        0xE041 => Err(Quote3Error::NetworkFailure),
        0xE042 => Err(Quote3Error::ServiceTimeout),
        0xE043 => Err(Quote3Error::Busy),
        0xE044 => Err(Quote3Error::UnknownMessageResponse),
        0xE045 => Err(Quote3Error::PersistentStorage),
        0xE046 => Err(Quote3Error::MessageParsing),
        0xE047 => Err(Quote3Error::PlatformUnknown),
        0xE048 => Err(Quote3Error::UnknownApiVersion),
        0xE049 => Err(Quote3Error::CertsUnavailable),
        0xE050 => Err(Quote3Error::QveIdentityMismatch),
        0xE051 => Err(Quote3Error::QveOutOfDate),
        0xE052 => Err(Quote3Error::PswNotAvailable),
        0xE053 => Err(Quote3Error::CollateralVersionNotSupported),
        0xE060 => Err(Quote3Error::TdxModuleMismatch),
        0xE061 => Err(Quote3Error::QeIdentityNotFound),
        0xE062 => Err(Quote3Error::TcbInfoNotFound),
        0xE063 => Err(Quote3Error::InternalServerError),
        0xE064 => Err(Quote3Error::SupplementalDataVersionNotSupported),
        0xE065 => Err(Quote3Error::RootCaUntrusted),
        0xE066 => Err(Quote3Error::TcbNotSupported),
        0xE067 => Err(Quote3Error::ConfigInvalidJson),
        0xE068 => Err(Quote3Error::InvalidSignature),
        0xE070 => Err(Quote3Error::QaeIdentityMismatch),
        0xE071 => Err(Quote3Error::QaeOutOfDate),
        0xE072 => Err(Quote3Error::QaeQuoteHashMismatch),
        0xE073 => Err(Quote3Error::ReportDataMismatch),
        0xE0FF => Err(Quote3Error::Max),
        c => Err(Quote3Error::Unknown(c)),
    }
}

/// The status mapping is total and loses nothing: success is reported for
/// the success code alone, and every other status maps to an error that
/// remembers exactly the code it came from.
pub proof fn lemma_status_result_inverts(status: u32)
    ensures
        spec_status_result(status) is Ok <==> status == STATUS_SUCCESS,
        spec_status_result(status) matches Err(e) ==> spec_error_code(e) == status,
{
}

/// The status mapping is injective: two native status codes that are
/// reported as the same result are the same code.
pub proof fn lemma_status_mapping_injective(s1: u32, s2: u32)
    requires
        spec_status_result(s1) == spec_status_result(s2),
    ensures
        s1 == s2,
{
    lemma_status_result_inverts(s1);
    lemma_status_result_inverts(s2);
}

} // verus!

use vstd::prelude::*;

verus! {

/// Everything that can go wrong while provisioning a device.
#[derive(Debug, Clone, PartialEq, Eq)]
pub enum WowUsbError {
    /// A host filesystem or process-spawning failure, carried as its message.
    Io(String),
    DeviceOperation(String),
    Filesystem(String),
    Platform(String),
    Validation(String),
    IsoProcessing(String),
    Progress(String),
    Configuration(String),
    Cancelled,
    NotImplemented(String),
}

/// Mathematical model of a [`WowUsbError`]: the variant and its message.
pub enum ErrorView {
    Io(Seq<char>),
    DeviceOperation(Seq<char>),
    Filesystem(Seq<char>),
    Platform(Seq<char>),
    Validation(Seq<char>),
    IsoProcessing(Seq<char>),
    Progress(Seq<char>),
    Configuration(Seq<char>),
    Cancelled,
    NotImplemented(Seq<char>),
}

impl View for WowUsbError {
    type V = ErrorView;

    open spec fn view(&self) -> ErrorView {
        match self {
            WowUsbError::Io(m) => ErrorView::Io(m@),
            WowUsbError::DeviceOperation(m) => ErrorView::DeviceOperation(m@),
            WowUsbError::Filesystem(m) => ErrorView::Filesystem(m@),
            WowUsbError::Platform(m) => ErrorView::Platform(m@),
            WowUsbError::Validation(m) => ErrorView::Validation(m@),
            WowUsbError::IsoProcessing(m) => ErrorView::IsoProcessing(m@),
            WowUsbError::Progress(m) => ErrorView::Progress(m@),
            WowUsbError::Configuration(m) => ErrorView::Configuration(m@),
            WowUsbError::Cancelled => ErrorView::Cancelled,
            WowUsbError::NotImplemented(m) => ErrorView::NotImplemented(m@),
        }
    }
}

impl WowUsbError {
    pub fn device_operation(msg: &str) -> (e: Self)
        ensures
            e@ == ErrorView::DeviceOperation(msg@),
    {
        WowUsbError::DeviceOperation(String::from_str(msg))
    }

    pub fn filesystem(msg: &str) -> (e: Self)
        ensures
            e@ == ErrorView::Filesystem(msg@),
    {
        WowUsbError::Filesystem(String::from_str(msg))
    }

    pub fn platform(msg: &str) -> (e: Self)
        ensures
            e@ == ErrorView::Platform(msg@),
    {
        WowUsbError::Platform(String::from_str(msg))
    }

    pub fn validation(msg: &str) -> (e: Self)
        ensures
            e@ == ErrorView::Validation(msg@),
    {
        WowUsbError::Validation(String::from_str(msg))
    }

    pub fn iso_processing(msg: &str) -> (e: Self)
        ensures
            e@ == ErrorView::IsoProcessing(msg@),
    {
        WowUsbError::IsoProcessing(String::from_str(msg))
    }

    pub fn progress(msg: &str) -> (e: Self)
        ensures
            e@ == ErrorView::Progress(msg@),
    {
        WowUsbError::Progress(String::from_str(msg))
    }

    pub fn configuration(msg: &str) -> (e: Self)
        ensures
            e@ == ErrorView::Configuration(msg@),
    {
        WowUsbError::Configuration(String::from_str(msg))
    }

    pub fn not_implemented(msg: &str) -> (e: Self)
        ensures
            e@ == ErrorView::NotImplemented(msg@),
    {
        WowUsbError::NotImplemented(String::from_str(msg))
    }

    /// An error of the same kind with the same message.
    pub fn duplicate(&self) -> (e: Self)
        ensures
            e@ == self@,
    {
        match self {
            WowUsbError::Io(m) => WowUsbError::Io(m.clone()),
            WowUsbError::DeviceOperation(m) => WowUsbError::DeviceOperation(m.clone()),
            WowUsbError::Filesystem(m) => WowUsbError::Filesystem(m.clone()),
            WowUsbError::Platform(m) => WowUsbError::Platform(m.clone()),
            WowUsbError::Validation(m) => WowUsbError::Validation(m.clone()),
            WowUsbError::IsoProcessing(m) => WowUsbError::IsoProcessing(m.clone()),
            WowUsbError::Progress(m) => WowUsbError::Progress(m.clone()),
            WowUsbError::Configuration(m) => WowUsbError::Configuration(m.clone()),
            WowUsbError::Cancelled => WowUsbError::Cancelled,
            WowUsbError::NotImplemented(m) => WowUsbError::NotImplemented(m.clone()),
        }
    }
}

impl ErrorView {
    /// The text that describes the error: what kind it is, then its message.
    pub open spec fn display(self) -> Seq<char> {
        match self {
            ErrorView::Io(m) => "IO error: "@ + m,
            ErrorView::DeviceOperation(m) => "Device operation failed: "@ + m,
            ErrorView::Filesystem(m) => "Filesystem error: "@ + m,
            ErrorView::Platform(m) => "Platform error: "@ + m,
            ErrorView::Validation(m) => "Validation error: "@ + m,
            ErrorView::IsoProcessing(m) => "ISO processing error: "@ + m,
            ErrorView::Progress(m) => "Progress error: "@ + m,
            ErrorView::Configuration(m) => "Configuration error: "@ + m,
            ErrorView::Cancelled => "Operation cancelled"@,
            ErrorView::NotImplemented(m) => "Not implemented: "@ + m,
        }
    }
}

impl WowUsbError {
    /// The text that describes the error.
    pub fn to_string(&self) -> (text: String)
        ensures
            text@ == self@.display(),
    {
        match self {
            WowUsbError::Io(m) => String::from_str("IO error: ").concat(m.as_str()),
            WowUsbError::DeviceOperation(m) => String::from_str("Device operation failed: ").concat(
                m.as_str(),
            ),
            WowUsbError::Filesystem(m) => String::from_str("Filesystem error: ").concat(m.as_str()),
            WowUsbError::Platform(m) => String::from_str("Platform error: ").concat(m.as_str()),
            WowUsbError::Validation(m) => String::from_str("Validation error: ").concat(m.as_str()),
            WowUsbError::IsoProcessing(m) => String::from_str("ISO processing error: ").concat(
                m.as_str(),
            ),
            WowUsbError::Progress(m) => String::from_str("Progress error: ").concat(m.as_str()),
            WowUsbError::Configuration(m) => String::from_str("Configuration error: ").concat(
                m.as_str(),
            ),
            WowUsbError::Cancelled => String::from_str("Operation cancelled"),
            WowUsbError::NotImplemented(m) => String::from_str("Not implemented: ").concat(
                m.as_str(),
            ),
        }
    }
}

} // verus!

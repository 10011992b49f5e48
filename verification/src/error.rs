//! Error taxonomy of the VM manager.
//!
//! Every failure a lifecycle operation can report is one of these variants;
//! the create pipeline wraps each stage's failure in the variant that names
//! the stage, so a caller can always tell which stage failed.

use vstd::prelude::*;

verus! {

/// A failure of a VM lifecycle operation.
#[derive(Debug)]
pub enum VmError {
    /// A lookup by identifier or name missed.
    NotFound { detail: String },
    /// The requested base image is not in the base-images directory.
    ImageNotFound { detail: String },
    /// The external disk-image tool reported a nonzero exit.
    DiskTool { detail: String },
    /// The disk-creation stage of the create pipeline failed.
    DiskCreation { detail: String },
    /// The external guest-customization tool reported a nonzero exit.
    CustomizeTool { detail: String },
    /// The customization stage of the create pipeline failed.
    Customization { detail: String },
    /// The hypervisor management connection could not be opened.
    Connection { detail: String },
    /// The domain could not be defined from its descriptor.
    DomainDefinition { detail: String },
    /// The defined domain could not be started.
    DomainStart { detail: String },
    /// No IPv4 address could be discovered for a domain.
    NoAddressFound,
    /// A filesystem operation failed.
    Io { detail: String },
}

impl VmError {
    /// A human-readable description, prefixed with the failure's kind.
    pub fn message(&self) -> (msg: String)
        ensures
            msg@ == self.spec_message(),
    {
        let mut s = String::new();
        match self {
            VmError::NotFound { detail } => {
                s.append("VM not found: ");
                s.append(detail.as_str());
            },
            VmError::ImageNotFound { detail } => {
                s.append("Base image not found: ");
                s.append(detail.as_str());
            },
            VmError::DiskTool { detail } => {
                s.append("qemu-img failed: ");
                s.append(detail.as_str());
            },
            VmError::DiskCreation { detail } => {
                s.append("Failed to create VM disk: ");
                s.append(detail.as_str());
            },
            VmError::CustomizeTool { detail } => {
                s.append("virt-customize failed: ");
                s.append(detail.as_str());
            },
            VmError::Customization { detail } => {
                s.append("Failed to customize VM disk: ");
                s.append(detail.as_str());
            },
            VmError::Connection { detail } => {
                s.append("Failed to connect to libvirt: ");
                s.append(detail.as_str());
            },
            VmError::DomainDefinition { detail } => {
                s.append("Failed to define VM in libvirt: ");
                s.append(detail.as_str());
            },
            VmError::DomainStart { detail } => {
                s.append("Failed to start VM: ");
                s.append(detail.as_str());
            },
            VmError::NoAddressFound => {
                s.append("No IP address found for domain");
            },
            VmError::Io { detail } => {
                s.append("I/O error: ");
                s.append(detail.as_str());
            },
        }
        proof {
            assert(s@ =~= self.spec_message());
        }
        s
    }

    /// The description [`Self::message`] returns.
    pub open spec fn spec_message(&self) -> Seq<char> {
        match self {
            VmError::NotFound { detail } => "VM not found: "@ + detail@,
            VmError::ImageNotFound { detail } => "Base image not found: "@ + detail@,
            VmError::DiskTool { detail } => "qemu-img failed: "@ + detail@,
            VmError::DiskCreation { detail } => "Failed to create VM disk: "@ + detail@,
            VmError::CustomizeTool { detail } => "virt-customize failed: "@ + detail@,
            VmError::Customization { detail } => "Failed to customize VM disk: "@ + detail@,
            VmError::Connection { detail } => "Failed to connect to libvirt: "@ + detail@,
            VmError::DomainDefinition { detail } => "Failed to define VM in libvirt: "@ + detail@,
            VmError::DomainStart { detail } => "Failed to start VM: "@ + detail@,
            VmError::NoAddressFound => "No IP address found for domain"@,
            VmError::Io { detail } => "I/O error: "@ + detail@,
        }
    }

    /// Whether the failure is a lookup miss, which the HTTP layer reports as
    /// not-found rather than as an internal error.
    pub fn is_not_found(&self) -> (r: bool)
        ensures
            r == (self is NotFound),
    {
        match self {
            VmError::NotFound { .. } => true,
            _ => false,
        }
    }
}

} // verus!

//! Why the devices of the Windows renderer could not be had.
//!
//! As with [`ContextError`], an error is reported as a chain of messages, and
//! `causes` holds the messages of a failure outside the library, outermost first.

use crate::error::ContextError;
use crate::text::{append_strings, one_string, texts};
use vstd::prelude::*;
use vstd::string::*;

verus! {

/// Why a COM object could not be borrowed. `context` is what it was for.
#[derive(Clone, Copy, Debug)]
pub enum ComError {
    NullPointer { context: &'static str },
    NoInterface { context: &'static str },
}

/// Why the D3D11-on-12 device could not be made.
#[derive(Debug)]
pub enum D3d11On12Error {
    /// The command queue is no COM object of the required kind.
    QueueCast { causes: Vec<String> },
    /// The call that makes the device failed.
    Call { causes: Vec<String> },
    /// The call gave no device.
    NoDevice,
    /// The device would not say what it supports.
    FeatureQuery { causes: Vec<String> },
    /// The device lacks structured buffers.
    StructuredBuffersUnsupported,
    /// The call gave no device context.
    NoDeviceContext,
    /// The device is no D3D11-on-12 device.
    DeviceCast { causes: Vec<String> },
}

/// Why the devices of the renderer could not be had.
#[derive(Debug)]
pub enum DirectXError {
    Factory { causes: Vec<String> },
    Dx12Context(ContextError),
    Com(ComError),
    Adapter { causes: Vec<String> },
    D3d11On12(D3d11On12Error),
}

impl ComError {
    /// The words of the error.
    pub open spec fn message_chars(self) -> Seq<char> {
        match self {
            ComError::NullPointer { context } => context@ + ": null COM pointer"@,
            ComError::NoInterface { context } => context@,
        }
    }

    /// The words of the error.
    pub fn message(&self) -> (message: String)
        ensures
            message@ == self.message_chars(),
    {
        match self {
            ComError::NullPointer { context } => (*context).to_owned().concat(": null COM pointer"),
            ComError::NoInterface { context } => (*context).to_owned(),
        }
    }
}

impl D3d11On12Error {
    /// The whole report: the error itself, then its causes. A failed call adds no
    /// words of its own to its causes.
    pub open spec fn chain_chars(self) -> Seq<Seq<char>> {
        match self {
            D3d11On12Error::QueueCast { causes } => seq![
                "Casting DX12 command queue for D3D11On12CreateDevice"@,
            ] + texts(causes@),
            D3d11On12Error::Call { causes } => texts(causes@),
            D3d11On12Error::NoDevice => seq!["D3D11On12CreateDevice returned no D3D11 device"@],
            D3d11On12Error::FeatureQuery { causes } => seq![
                "Checking GPU device feature support"@,
            ] + texts(causes@),
            D3d11On12Error::StructuredBuffersUnsupported => seq![
                "Required feature StructuredBuffer is not supported by GPU/driver"@,
            ],
            D3d11On12Error::NoDeviceContext => seq![
                "D3D11On12CreateDevice returned no D3D11 device context"@,
            ],
            D3d11On12Error::DeviceCast { causes } => seq![
                "Casting D3D11 device to ID3D11On12Device"@,
            ] + texts(causes@),
        }
    }

    /// The whole report: the error itself, then its causes.
    pub fn chain(&self) -> (chain: Vec<String>)
        ensures
            texts(chain@) == self.chain_chars(),
    {
        let mut chain: Vec<String> = Vec::new();
        match self {
            D3d11On12Error::QueueCast { causes } => {
                chain = one_string("Casting DX12 command queue for D3D11On12CreateDevice".to_owned());
                append_strings(&mut chain, causes);
            },
            D3d11On12Error::Call { causes } => {
                append_strings(&mut chain, causes);
            },
            D3d11On12Error::NoDevice => {
                chain = one_string("D3D11On12CreateDevice returned no D3D11 device".to_owned());
            },
            D3d11On12Error::FeatureQuery { causes } => {
                chain = one_string("Checking GPU device feature support".to_owned());
                append_strings(&mut chain, causes);
            },
            D3d11On12Error::StructuredBuffersUnsupported => {
                chain = one_string(
                    "Required feature StructuredBuffer is not supported by GPU/driver".to_owned(),
                );
            },
            D3d11On12Error::NoDeviceContext => {
                chain = one_string(
                    "D3D11On12CreateDevice returned no D3D11 device context".to_owned(),
                );
            },
            D3d11On12Error::DeviceCast { causes } => {
                chain = one_string("Casting D3D11 device to ID3D11On12Device".to_owned());
                append_strings(&mut chain, causes);
            },
        }
        assert(texts(chain@) =~= self.chain_chars());
        chain
    }
}

impl DirectXError {
    /// The whole report: the error itself, then its causes.
    pub open spec fn chain_chars(self) -> Seq<Seq<char>> {
        match self {
            DirectXError::Factory { causes } => seq!["Creating DXGI factory"@] + texts(causes@),
            DirectXError::Dx12Context(error) => seq!["Creating DX12 external wgpu context"@]
                + error.chain_chars(),
            DirectXError::Com(error) => seq![error.message_chars()],
            DirectXError::Adapter { causes } => seq![
                "Getting DXGI adapter for external wgpu DX12 device"@,
                "Enumerating adapter by DX12 device LUID"@,
            ] + texts(causes@),
            DirectXError::D3d11On12(error) => seq!["Creating D3D11On12 device"@]
                + error.chain_chars(),
        }
    }

    /// The whole report: the error itself, then its causes.
    pub fn chain(&self) -> (chain: Vec<String>)
        ensures
            texts(chain@) == self.chain_chars(),
    {
        let mut chain: Vec<String> = Vec::new();
        match self {
            DirectXError::Factory { causes } => {
                chain = one_string("Creating DXGI factory".to_owned());
                append_strings(&mut chain, causes);
            },
            DirectXError::Dx12Context(error) => {
                chain = one_string("Creating DX12 external wgpu context".to_owned());
                append_strings(&mut chain, &error.chain());
            },
            DirectXError::Com(error) => {
                chain = one_string(error.message());
            },
            DirectXError::Adapter { causes } => {
                chain = one_string("Getting DXGI adapter for external wgpu DX12 device".to_owned());
                append_strings(
                    &mut chain,
                    &one_string("Enumerating adapter by DX12 device LUID".to_owned()),
                );
                append_strings(&mut chain, causes);
            },
            DirectXError::D3d11On12(error) => {
                chain = one_string("Creating D3D11On12 device".to_owned());
                append_strings(&mut chain, &error.chain());
            },
        }
        assert(texts(chain@) =~= self.chain_chars());
        chain
    }
}

/// No error goes unreported, and none hides what it was caused by: the report of
/// an error that is passed on ends with the report of the error itself.
pub proof fn reports_keep_their_causes(error: DirectXError)
    ensures
        error.chain_chars().len() > 0,
        error matches DirectXError::Dx12Context(inner) ==> error.chain_chars().skip(1)
            == inner.chain_chars(),
        error matches DirectXError::D3d11On12(inner) ==> error.chain_chars().skip(1)
            == inner.chain_chars(),
        error matches DirectXError::Factory { causes } ==> error.chain_chars().skip(1) == texts(
            causes@,
        ),
        error matches DirectXError::Adapter { causes } ==> error.chain_chars().skip(2) == texts(
            causes@,
        ),
{
    match error {
        DirectXError::Dx12Context(inner) => {
            assert(error.chain_chars().skip(1) =~= inner.chain_chars());
        },
        DirectXError::D3d11On12(inner) => {
            assert(error.chain_chars().skip(1) =~= inner.chain_chars());
        },
        DirectXError::Factory { causes } => {
            assert(error.chain_chars().skip(1) =~= texts(causes@));
        },
        DirectXError::Adapter { causes } => {
            assert(error.chain_chars().skip(2) =~= texts(causes@));
        },
        DirectXError::Com(_) => {},
    }
}

/// The report of a failed setup ends with the causes of the failure, all of them
/// and in order, behind as many words of its own as the calls on the way add.
pub proof fn the_report_ends_with_the_causes(error: DirectXError, chain: Vec<String>)
    requires
        call_ensures(DirectXError::chain, (&error,), chain),
    ensures
        match error {
            DirectXError::Factory { causes } => ends_with(chain@, 1, causes@),
            DirectXError::Adapter { causes } => ends_with(chain@, 2, causes@),
            DirectXError::Com(_) => chain@.len() == 1,
            DirectXError::Dx12Context(inner) => match inner {
                ContextError::MetalDeviceCreation { causes } => ends_with(chain@, 2, causes@),
                ContextError::DeviceRequest { causes } => ends_with(chain@, 2, causes@),
                _ => chain@.len() == 2,
            },
            DirectXError::D3d11On12(inner) => match inner {
                D3d11On12Error::QueueCast { causes } => ends_with(chain@, 2, causes@),
                D3d11On12Error::Call { causes } => ends_with(chain@, 1, causes@),
                D3d11On12Error::FeatureQuery { causes } => ends_with(chain@, 2, causes@),
                D3d11On12Error::DeviceCast { causes } => ends_with(chain@, 2, causes@),
                _ => chain@.len() == 2,
            },
        },
{
    let report = texts(chain@);
    assert(report.len() == chain@.len());
    match error {
        DirectXError::Factory { causes } => {
            words_then_causes(chain@, report.take(1), causes@);
        },
        DirectXError::Adapter { causes } => {
            words_then_causes(chain@, report.take(2), causes@);
        },
        DirectXError::Com(_) => {},
        DirectXError::Dx12Context(inner) => match inner {
            ContextError::MetalDeviceCreation { causes } => {
                words_then_causes(chain@, report.take(2), causes@);
            },
            ContextError::DeviceRequest { causes } => {
                words_then_causes(chain@, report.take(2), causes@);
            },
            _ => {},
        },
        DirectXError::D3d11On12(inner) => match inner {
            D3d11On12Error::QueueCast { causes } => {
                words_then_causes(chain@, report.take(2), causes@);
            },
            D3d11On12Error::Call { causes } => {
                words_then_causes(chain@, report.take(1), causes@);
            },
            D3d11On12Error::FeatureQuery { causes } => {
                words_then_causes(chain@, report.take(2), causes@);
            },
            D3d11On12Error::DeviceCast { causes } => {
                words_then_causes(chain@, report.take(2), causes@);
            },
            _ => {},
        },
    }
}

proof fn words_then_causes(chain: Seq<String>, words: Seq<Seq<char>>, causes: Seq<String>)
    requires
        texts(chain) =~= words + texts(causes),
    ensures
        ends_with(chain, words.len(), causes),
{
    assert(texts(chain).len() == chain.len());
    assert forall|i: int| 0 <= i < causes.len() implies (#[trigger] causes[i])@ == chain[
        words.len() + i
    ]@ by {
        assert(texts(chain)[words.len() + i] == texts(causes)[i]);
    }
}

/// Whether `chain` ends with `causes`, behind `own` other messages.
pub open spec fn ends_with(chain: Seq<String>, own: nat, causes: Seq<String>) -> bool {
    &&& chain.len() == own + causes.len()
    &&& forall|i: int| 0 <= i < causes.len() ==> (#[trigger] causes[i])@ == chain[own + i]@
}

/// The words that a failed setup begins its report with say which part of it
/// failed, whatever the causes are.
pub proof fn the_report_begins_with_what_failed(error: DirectXError, chain: Vec<String>)
    requires
        call_ensures(DirectXError::chain, (&error,), chain),
    ensures
        chain@.len() > 0,
        match error {
            DirectXError::Factory { .. } => chain@[0]@ == "Creating DXGI factory"@,
            DirectXError::Dx12Context(_) => chain@[0]@ == "Creating DX12 external wgpu context"@,
            DirectXError::Com(ComError::NullPointer { context }) => chain@[0]@ == context@
                + ": null COM pointer"@,
            DirectXError::Com(ComError::NoInterface { context }) => chain@[0]@ == context@,
            DirectXError::Adapter { .. } => {
                &&& chain@[0]@ == "Getting DXGI adapter for external wgpu DX12 device"@
                &&& chain@[1]@ == "Enumerating adapter by DX12 device LUID"@
            },
            DirectXError::D3d11On12(inner) => {
                &&& chain@[0]@ == "Creating D3D11On12 device"@
                &&& inner is QueueCast ==> chain@[1]@
                    == "Casting DX12 command queue for D3D11On12CreateDevice"@
                &&& inner is FeatureQuery ==> chain@[1]@ == "Checking GPU device feature support"@
                &&& inner is DeviceCast ==> chain@[1]@
                    == "Casting D3D11 device to ID3D11On12Device"@
            },
        },
{
    let report = texts(chain@);
    assert(report.len() == chain@.len());
    assert(forall|i: int| 0 <= i < report.len() ==> #[trigger] report[i] == chain@[i]@);
    assert(report[0] == chain@[0]@);
    assert(report.len() > 1 ==> report[1] == chain@[1]@);
}

} // verus!

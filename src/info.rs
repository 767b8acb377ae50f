use vstd::prelude::*;

verus! {

/// Execution back-ends that the engine supports on this host.
#[derive(Debug, Clone, Copy, PartialEq, Eq, Structural)]
pub struct SupportedFeatures {
    cpu: bool,
    cuda: bool,
    dml: bool,
}

impl SupportedFeatures {
    /// Builds the record from the three flags the engine reports.
    pub fn new(cpu: bool, cuda: bool, dml: bool) -> (r: SupportedFeatures)
        ensures
            r.spec_cpu() == cpu,
            r.spec_cuda() == cuda,
            r.spec_dml() == dml,
    {
        SupportedFeatures { cpu, cuda, dml }
    }

    pub closed spec fn spec_cpu(&self) -> bool {
        self.cpu
    }

    pub closed spec fn spec_cuda(&self) -> bool {
        self.cuda
    }

    pub closed spec fn spec_dml(&self) -> bool {
        self.dml
    }

    /// Whether some GPU back-end is available: CUDA or DirectML.
    pub open spec fn spec_gpu(&self) -> bool {
        self.spec_cuda() || self.spec_dml()
    }

    /// Whether the CPU back-end is available (the engine always reports it).
    pub fn cpu(&self) -> (r: bool)
        ensures
            r == self.spec_cpu(),
    {
        self.cpu
    }

    /// Whether the CUDA execution provider is available.
    pub fn cuda(&self) -> (r: bool)
        ensures
            r == self.spec_cuda(),
    {
        self.cuda
    }

    /// Whether the DirectML execution provider is available.
    pub fn dml(&self) -> (r: bool)
        ensures
            r == self.spec_dml(),
    {
        self.dml
    }

    /// Whether some GPU back-end is available.
    pub fn gpu(&self) -> (r: bool)
        ensures
            r == self.spec_gpu(),
    {
        self.cuda || self.dml
    }
}

} // verus!

//! Everything the compute passes need before the first frame.

use vstd::prelude::*;
use crate::binary32::binary32_bits;
use crate::compute::params::GOLParams;
use crate::compute::{GameOfLifeNode, GameOfLifeState};
use crate::kernel::upload::{inner_disc, outer_ring, GOLKernelPlugin, KernelSetup};

verus! {

/// What the backend is to create before the first frame, and the node that
/// then runs the passes.
pub struct ComputeSetup {
    /// The kernels, and what to write into their textures.
    pub kernel_setup: KernelSetup,
    /// The parameters of the simulation.
    pub params: GOLParams,
    /// The contents of the uniform buffer.
    pub uniform: Vec<u8>,
    /// The node to add to the render graph.
    pub node: GameOfLifeNode,
}

impl ComputeSetup {
    /// The setup is the one for the number `random_float`: the kernels of the
    /// simulation, parameters with that number and the total weights of the
    /// two kernels, the bytes of those parameters, and a node that has yet to
    /// see a frame.
    pub open spec fn wf(self, random_float: u32) -> bool {
        &&& self.kernel_setup.wf()
        &&& self.params.random_float == random_float
        &&& self.params.outer_kernel_area == binary32_bits(outer_ring().area() as nat)
        &&& self.params.inner_kernel_area == binary32_bits(inner_disc().area() as nat)
        &&& self.uniform@ == self.params.bytes()
        &&& self.node.state == GameOfLifeState::Loading
    }
}

/// Sets up the simulation on the GPU.
pub struct GameOfLifeComputePlugin;

impl GameOfLifeComputePlugin {
    /// Prepares the simulation: draws the kernels, derives the parameters
    /// from their total weights and from `random_float`, the bit pattern of a
    /// single-precision number drawn at random, and lays the parameters out
    /// for the uniform buffer.
    pub fn build(&self, random_float: u32) -> (setup: ComputeSetup)
        ensures
            setup.wf(random_float),
    {
        let kernel_setup = GOLKernelPlugin.build();
        let params = GOLParams::new(random_float, &kernel_setup.kernels);
        let uniform = params.to_bytes();
        ComputeSetup { kernel_setup, params, uniform, node: GameOfLifeNode::default() }
    }
}

} // verus!

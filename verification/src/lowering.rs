//! Semantic lowering: the two-pass walk that turns a parsed syntax tree
//! into a typed HLIR package. The prototype pass registers every function
//! signature before any body is visited, so call sites resolve forward
//! references; the body pass then lowers every function body in source
//! order.

pub mod functions;
pub mod prototypes;

use vstd::prelude::*;

use crate::ast::AST;
use crate::hlir::functions::Functions;
use crate::hlir::inference::TypeError;
use crate::hlir::package::{env_fully_resolved, HLIRPackage};

verus! {

/// The driver of lowering: owns the package being built and runs the two
/// passes over a syntax tree.
#[derive(Debug)]
pub struct ASTLoweringContext {
    /// The package under construction.
    pub package: HLIRPackage,
    /// Diagnostics the driver itself raises; the lowering passes record
    /// theirs on the package.
    pub errors: Vec<TypeError>,
}

impl ASTLoweringContext {
    pub open spec fn wf(&self) -> bool {
        self.package.wf()
    }

    #[must_use]
    pub fn new() -> (r: Self)
        ensures
            r.wf(),
    {
        Self { package: HLIRPackage::new(), errors: Vec::new() }
    }

    /// Lower a syntax tree: first register every function prototype, then
    /// lower every body. Diagnostics accumulate on the package; a run that
    /// raises none has registered a prototype for every item, recorded a
    /// body for every function item, and left every inference variable
    /// resolved.
    pub fn lower(&mut self, ast: &AST)
        requires
            old(self).wf(),
        ensures
            final(self).wf(),
            old(self).package.spec_diagnostics().len() <= final(self).package.spec_diagnostics().len(),
            // a silent run registered a prototype for every item
            final(self).package.spec_diagnostics().len() == old(self).package.spec_diagnostics().len() ==> forall|i: int|
                0 <= i < ast.0@.len() ==> (#[trigger] final(self).package.spec_functions().spec_get(seq![ast.0@[i].spec_data().spec_name()])) is Some,
            // ... and recorded a body for every function item
            final(self).package.spec_diagnostics().len() == old(self).package.spec_diagnostics().len() ==> forall|i: int|
                0 <= i < ast.0@.len() && (#[trigger] ast.0@[i].spec_data()) is Function ==> ({
                    let fid = final(self).package.spec_functions().spec_get(
                        seq![ast.0@[i].spec_data().spec_name()],
                    );
                    &&& fid is Some
                    &&& 0 <= fid.unwrap()@ < final(self).package.spec_functions().spec_impls().len()
                    &&& final(self).package.spec_functions().spec_impls()[fid.unwrap()@] is Some
                }),
            // ... and, begun with every variable resolved, ends so
            (final(self).package.spec_diagnostics().len() == old(self).package.spec_diagnostics().len() && env_fully_resolved(&old(self).package)) ==> env_fully_resolved(
                &final(self).package,
            ),
    {
        let mut package = HLIRPackage::new();
        core::mem::swap(&mut package, &mut self.package);
        let ghost p0 = package;
        let mut prototype_pass = prototypes::PrototypeLoweringContext::new(package);
        let ghost proto_pre = prototype_pass;
        prototype_pass.lower(ast);
        let ghost proto_post = prototype_pass;
        let package = prototype_pass.finish();
        let mut body_pass = functions::FunctionLoweringContext::new(package);
        let ghost body_pre = body_pass;
        body_pass.lower(ast);
        let ghost body_post = body_pass;
        let package = body_pass.finish();
        self.package = package;
        proof {
            Functions::lemma_same_names(
                &body_pre.package.functions,
                &body_post.package.functions,
            );
            if self.package.spec_diagnostics().len() == p0.spec_diagnostics().len() {
                assert(proto_post.silent_since(&proto_pre));
                assert(body_post.silent_since(&body_pre));
                assert forall|i: int|
                    0 <= i < ast.0@.len() && (#[trigger] ast.0@[i].spec_data())
                        is Function implies ({
                    let fid = self.package.spec_functions().spec_get(
                        seq![ast.0@[i].spec_data().spec_name()],
                    );
                    &&& fid is Some
                    &&& 0 <= fid.unwrap()@ < self.package.spec_functions().spec_impls().len()
                    &&& self.package.spec_functions().spec_impls()[fid.unwrap()@] is Some
                }) by {
                    assert(functions::recorded_impl(
                        &body_pre,
                        &body_post,
                        ast.0@[i].spec_data().spec_name(),
                    ));
                }
            }
        }
    }

    /// Hand the finished package over, exactly as lowering left it.
    #[must_use]
    pub fn finish(self) -> (r: HLIRPackage)
        ensures
            r == self.package,
            self.wf() ==> r.wf(),
    {
        self.package
    }
}

} // verus!

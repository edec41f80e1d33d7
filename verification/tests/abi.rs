//! Signature-assignment checks for each calling convention.

use x64_assembler::abi as regs;
use x64_assembler::abi::{ABIOperand, CallingConvention, CodeGenError, Reg, WasmFuncType, X64ABI};
use x64_assembler::gc::WasmValType::{self, F32, F64, I32, I64, V128};

type Result<T> = std::result::Result<T, CodeGenError>;

#[test]
fn int_abi_sig() -> Result<()> {
    let wasm_sig = WasmFuncType::new(vec![I32, I64, I32, I64, I32, I32, I64, I32], vec![]);

    let sig = X64ABI::sig(&wasm_sig, &CallingConvention::Default)?;
    let params = sig.params;

    match_reg_arg(params.get(0).unwrap(), I32, regs::rdi());
    match_reg_arg(params.get(1).unwrap(), I64, regs::rsi());
    match_reg_arg(params.get(2).unwrap(), I32, regs::rdx());
    match_reg_arg(params.get(3).unwrap(), I64, regs::rcx());
    match_reg_arg(params.get(4).unwrap(), I32, regs::r8());
    match_reg_arg(params.get(5).unwrap(), I32, regs::r9());
    match_stack_arg(params.get(6).unwrap(), I64, 0);
    match_stack_arg(params.get(7).unwrap(), I32, 8);
    Ok(())
}

#[test]
fn int_abi_sig_multi_returns() -> Result<()> {
    let wasm_sig = WasmFuncType::new(
        vec![I32, I64, I32, I64, I32, I32, I64, I32],
        vec![I32, I32, I32],
    );

    let sig = X64ABI::sig(&wasm_sig, &CallingConvention::Default)?;
    let params = sig.params;
    let results = sig.results;

    match_reg_arg(params.get(0).unwrap(), I32, regs::rsi());
    match_reg_arg(params.get(1).unwrap(), I64, regs::rdx());
    match_reg_arg(params.get(2).unwrap(), I32, regs::rcx());
    match_reg_arg(params.get(3).unwrap(), I64, regs::r8());
    match_reg_arg(params.get(4).unwrap(), I32, regs::r9());
    match_stack_arg(params.get(5).unwrap(), I32, 0);
    match_stack_arg(params.get(6).unwrap(), I64, 8);
    match_stack_arg(params.get(7).unwrap(), I32, 16);

    match_stack_arg(results.get(0).unwrap(), I32, 4);
    match_stack_arg(results.get(1).unwrap(), I32, 0);
    match_reg_arg(results.get(2).unwrap(), I32, regs::rax());
    Ok(())
}

#[test]
fn float_abi_sig() -> Result<()> {
    let wasm_sig = WasmFuncType::new(
        vec![F32, F64, F32, F64, F32, F32, F64, F32, F64],
        vec![],
    );

    let sig = X64ABI::sig(&wasm_sig, &CallingConvention::Default)?;
    let params = sig.params;

    match_reg_arg(params.get(0).unwrap(), F32, regs::xmm0());
    match_reg_arg(params.get(1).unwrap(), F64, regs::xmm1());
    match_reg_arg(params.get(2).unwrap(), F32, regs::xmm2());
    match_reg_arg(params.get(3).unwrap(), F64, regs::xmm3());
    match_reg_arg(params.get(4).unwrap(), F32, regs::xmm4());
    match_reg_arg(params.get(5).unwrap(), F32, regs::xmm5());
    match_reg_arg(params.get(6).unwrap(), F64, regs::xmm6());
    match_reg_arg(params.get(7).unwrap(), F32, regs::xmm7());
    match_stack_arg(params.get(8).unwrap(), F64, 0);
    Ok(())
}

#[test]
fn vector_abi_sig() -> Result<()> {
    let wasm_sig = WasmFuncType::new(
        vec![V128, V128, V128, V128, V128, V128, V128, V128, V128, V128],
        vec![],
    );

    let sig = X64ABI::sig(&wasm_sig, &CallingConvention::Default)?;
    let params = sig.params;

    match_reg_arg(params.get(0).unwrap(), V128, regs::xmm0());
    match_reg_arg(params.get(1).unwrap(), V128, regs::xmm1());
    match_reg_arg(params.get(2).unwrap(), V128, regs::xmm2());
    match_reg_arg(params.get(3).unwrap(), V128, regs::xmm3());
    match_reg_arg(params.get(4).unwrap(), V128, regs::xmm4());
    match_reg_arg(params.get(5).unwrap(), V128, regs::xmm5());
    match_reg_arg(params.get(6).unwrap(), V128, regs::xmm6());
    match_reg_arg(params.get(7).unwrap(), V128, regs::xmm7());
    match_stack_arg(params.get(8).unwrap(), V128, 0);
    match_stack_arg(params.get(9).unwrap(), V128, 16);
    Ok(())
}

#[test]
fn vector_abi_sig_multi_returns() -> Result<()> {
    let wasm_sig = WasmFuncType::new(vec![], vec![V128, V128, V128]);

    let sig = X64ABI::sig(&wasm_sig, &CallingConvention::Default)?;
    let results = sig.results;

    match_stack_arg(results.get(0).unwrap(), V128, 16);
    match_stack_arg(results.get(1).unwrap(), V128, 0);
    match_reg_arg(results.get(2).unwrap(), V128, regs::xmm0());
    Ok(())
}

#[test]
fn mixed_abi_sig() -> Result<()> {
    let wasm_sig = WasmFuncType::new(
        vec![F32, I32, I64, F64, I32, F32, F64, F32, F64],
        vec![],
    );

    let sig = X64ABI::sig(&wasm_sig, &CallingConvention::Default)?;
    let params = sig.params;

    match_reg_arg(params.get(0).unwrap(), F32, regs::xmm0());
    match_reg_arg(params.get(1).unwrap(), I32, regs::rdi());
    match_reg_arg(params.get(2).unwrap(), I64, regs::rsi());
    match_reg_arg(params.get(3).unwrap(), F64, regs::xmm1());
    match_reg_arg(params.get(4).unwrap(), I32, regs::rdx());
    match_reg_arg(params.get(5).unwrap(), F32, regs::xmm2());
    match_reg_arg(params.get(6).unwrap(), F64, regs::xmm3());
    match_reg_arg(params.get(7).unwrap(), F32, regs::xmm4());
    match_reg_arg(params.get(8).unwrap(), F64, regs::xmm5());

    let wasm_sig = WasmFuncType::new(
        vec![F32, F32, F32, F32, F32, F32, F32, F32, F32, V128],
        vec![V128],
    );

    let sig = X64ABI::sig(&wasm_sig, &CallingConvention::Default)?;
    let params = sig.params;

    match_stack_arg(params.get(8).unwrap(), F32, 0);
    match_stack_arg(params.get(9).unwrap(), V128, 16);
    Ok(())
}

#[test]
fn system_v_call_conv() -> Result<()> {
    let wasm_sig = WasmFuncType::new(
        vec![F32, I32, I64, F64, I32, F32, F64, F32, F64],
        vec![],
    );

    let sig = X64ABI::sig(&wasm_sig, &CallingConvention::SystemV)?;
    let params = sig.params;

    match_reg_arg(params.get(0).unwrap(), F32, regs::xmm0());
    match_reg_arg(params.get(1).unwrap(), I32, regs::rdi());
    match_reg_arg(params.get(2).unwrap(), I64, regs::rsi());
    match_reg_arg(params.get(3).unwrap(), F64, regs::xmm1());
    match_reg_arg(params.get(4).unwrap(), I32, regs::rdx());
    match_reg_arg(params.get(5).unwrap(), F32, regs::xmm2());
    match_reg_arg(params.get(6).unwrap(), F64, regs::xmm3());
    match_reg_arg(params.get(7).unwrap(), F32, regs::xmm4());
    match_reg_arg(params.get(8).unwrap(), F64, regs::xmm5());
    Ok(())
}

#[test]
fn fastcall_call_conv() -> Result<()> {
    let wasm_sig = WasmFuncType::new(
        vec![F32, I32, I64, F64, I32, F32, F64, F32, F64],
        vec![],
    );

    let sig = X64ABI::sig(&wasm_sig, &CallingConvention::WindowsFastcall)?;
    let params = sig.params;

    match_reg_arg(params.get(0).unwrap(), F32, regs::xmm0());
    match_reg_arg(params.get(1).unwrap(), I32, regs::rdx());
    match_reg_arg(params.get(2).unwrap(), I64, regs::r8());
    match_reg_arg(params.get(3).unwrap(), F64, regs::xmm3());
    match_stack_arg(params.get(4).unwrap(), I32, 32);
    match_stack_arg(params.get(5).unwrap(), F32, 40);
    Ok(())
}

#[test]
fn fastcall_call_conv_multi_returns() -> Result<()> {
    let wasm_sig = WasmFuncType::new(
        vec![F32, I32, I64, F64, I32, F32, F64, F32, F64],
        vec![I32, F32, I32, F32, I64],
    );

    let sig = X64ABI::sig(&wasm_sig, &CallingConvention::WindowsFastcall)?;
    let params = sig.params;
    let results = sig.results;

    match_reg_arg(params.get(0).unwrap(), F32, regs::xmm1());
    match_reg_arg(params.get(1).unwrap(), I32, regs::r8());
    match_reg_arg(params.get(2).unwrap(), I64, regs::r9());
    // Each argument stack slot is 8 bytes.
    match_stack_arg(params.get(3).unwrap(), F64, 32);
    match_stack_arg(params.get(4).unwrap(), I32, 40);
    match_stack_arg(params.get(5).unwrap(), F32, 48);

    match_reg_arg(results.get(0).unwrap(), I32, regs::rax());

    match_stack_arg(results.get(1).unwrap(), F32, 0);
    match_stack_arg(results.get(2).unwrap(), I32, 4);
    match_stack_arg(results.get(3).unwrap(), F32, 8);
    match_stack_arg(results.get(4).unwrap(), I64, 16);
    Ok(())
}

fn match_reg_arg(abi_arg: &ABIOperand, expected_ty: WasmValType, expected_reg: Reg) {
    match abi_arg {
        &ABIOperand::Reg { reg, ty, .. } => {
            assert_eq!(reg, expected_reg);
            assert_eq!(ty, expected_ty);
        }
        stack => panic!("Expected reg argument, got {stack:?}"),
    }
}

fn match_stack_arg(abi_arg: &ABIOperand, expected_ty: WasmValType, expected_offset: u32) {
    match abi_arg {
        &ABIOperand::Stack { offset, ty, .. } => {
            assert_eq!(offset, expected_offset);
            assert_eq!(ty, expected_ty);
        }
        reg => panic!("Expected stack argument, got {reg:?}"),
    }
}

use vstd::prelude::*;
use crate::formula::{CostFunctions, SimpleCostSpecification};

verus! {

/// The number of named cost functions.
pub const COST_FUNCTION_COUNT: usize = 107;

/// The closed set of abstract operations that metering prices by name.
#[derive(Debug, Clone, Copy, PartialEq, Eq, Hash, Structural)]
pub enum ClarityCostFunction {
    AnalysisTypeAnnotate,
    AnalysisTypeCheck,
    AnalysisTypeLookup,
    AnalysisVisit,
    AnalysisIterableFunc,
    AnalysisOptionCons,
    AnalysisOptionCheck,
    AnalysisBindName,
    AnalysisListItemsCheck,
    AnalysisCheckTupleGet,
    AnalysisCheckTupleCons,
    AnalysisTupleItemsCheck,
    AnalysisCheckLet,
    AnalysisLookupFunction,
    AnalysisLookupFunctionTypes,
    AnalysisLookupVariableConst,
    AnalysisLookupVariableDepth,
    AstParse,
    AstCycleDetection,
    AnalysisStorage,
    AnalysisUseTraitEntry,
    AnalysisGetFunctionEntry,
    AnalysisFetchContractEntry,
    LookupVariableDepth,
    LookupVariableSize,
    LookupFunction,
    BindName,
    InnerTypeCheckCost,
    UserFunctionApplication,
    Let,
    If,
    Asserts,
    ListMap,
    Filter,
    Len,
    Fold,
    ListCons,
    TypeParseStep,
    DataHashCost,
    TupleGet,
    TupleCons,
    Add,
    Sub,
    Mul,
    Div,
    Geq,
    Leq,
    Le,
    Ge,
    IntCast,
    Mod,
    Pow,
    Sqrti,
    Xor,
    Not,
    Eq,
    Begin,
    Hash160,
    Sha256,
    Sha512,
    Sha512t256,
    Keccak256,
    Secp256k1recover,
    Secp256k1verify,
    Print,
    SomeCons,
    OkCons,
    ErrCons,
    DefaultTo,
    UnwrapRet,
    UnwrapErrOrRet,
    IsOkay,
    IsNone,
    IsErr,
    IsSome,
    Unwrap,
    UnwrapErr,
    TryRet,
    Match,
    Or,
    And,
    Append,
    Concat,
    AsMaxLen,
    ContractCall,
    ContractOf,
    PrincipalOf,
    AtBlock,
    LoadContract,
    CreateMap,
    CreateVar,
    CreateNft,
    CreateFt,
    FetchEntry,
    SetEntry,
    FetchVar,
    SetVar,
    ContractStorage,
    BlockInfo,
    StxBalance,
    StxTransfer,
    FtMint,
    FtTransfer,
    FtBalance,
    NftMint,
    NftTransfer,
    NftOwner,
}

impl ClarityCostFunction {
    /// The canonical name under which a cost contract exports this function.
    pub open spec fn spec_name(self) -> Seq<char> {
        match self {
            ClarityCostFunction::AnalysisTypeAnnotate => "cost_analysis_type_annotate"@,
            ClarityCostFunction::AnalysisTypeCheck => "cost_analysis_type_check"@,
            ClarityCostFunction::AnalysisTypeLookup => "cost_analysis_type_lookup"@,
            ClarityCostFunction::AnalysisVisit => "cost_analysis_visit"@,
            ClarityCostFunction::AnalysisIterableFunc => "cost_analysis_iterable_func"@,
            ClarityCostFunction::AnalysisOptionCons => "cost_analysis_option_cons"@,
            ClarityCostFunction::AnalysisOptionCheck => "cost_analysis_option_check"@,
            ClarityCostFunction::AnalysisBindName => "cost_analysis_bind_name"@,
            ClarityCostFunction::AnalysisListItemsCheck => "cost_analysis_list_items_check"@,
            ClarityCostFunction::AnalysisCheckTupleGet => "cost_analysis_check_tuple_get"@,
            ClarityCostFunction::AnalysisCheckTupleCons => "cost_analysis_check_tuple_cons"@,
            ClarityCostFunction::AnalysisTupleItemsCheck => "cost_analysis_tuple_items_check"@,
            ClarityCostFunction::AnalysisCheckLet => "cost_analysis_check_let"@,
            ClarityCostFunction::AnalysisLookupFunction => "cost_analysis_lookup_function"@,
            ClarityCostFunction::AnalysisLookupFunctionTypes => "cost_analysis_lookup_function_types"@,
            ClarityCostFunction::AnalysisLookupVariableConst => "cost_analysis_lookup_variable_const"@,
            ClarityCostFunction::AnalysisLookupVariableDepth => "cost_analysis_lookup_variable_depth"@,
            ClarityCostFunction::AstParse => "cost_ast_parse"@,
            ClarityCostFunction::AstCycleDetection => "cost_ast_cycle_detection"@,
            ClarityCostFunction::AnalysisStorage => "cost_analysis_storage"@,
            ClarityCostFunction::AnalysisUseTraitEntry => "cost_analysis_use_trait_entry"@,
            ClarityCostFunction::AnalysisGetFunctionEntry => "cost_analysis_get_function_entry"@,
            ClarityCostFunction::AnalysisFetchContractEntry => "cost_analysis_fetch_contract_entry"@,
            ClarityCostFunction::LookupVariableDepth => "cost_lookup_variable_depth"@,
            ClarityCostFunction::LookupVariableSize => "cost_lookup_variable_size"@,
            ClarityCostFunction::LookupFunction => "cost_lookup_function"@,
            ClarityCostFunction::BindName => "cost_bind_name"@,
            ClarityCostFunction::InnerTypeCheckCost => "cost_inner_type_check_cost"@,
            ClarityCostFunction::UserFunctionApplication => "cost_user_function_application"@,
            ClarityCostFunction::Let => "cost_let"@,
            ClarityCostFunction::If => "cost_if"@,
            ClarityCostFunction::Asserts => "cost_asserts"@,
            ClarityCostFunction::ListMap => "cost_map"@,
            ClarityCostFunction::Filter => "cost_filter"@,
            ClarityCostFunction::Len => "cost_len"@,
            ClarityCostFunction::Fold => "cost_fold"@,
            ClarityCostFunction::ListCons => "cost_list_cons"@,
            ClarityCostFunction::TypeParseStep => "cost_type_parse_step"@,
            ClarityCostFunction::DataHashCost => "cost_data_hash_cost"@,
            ClarityCostFunction::TupleGet => "cost_tuple_get"@,
            ClarityCostFunction::TupleCons => "cost_tuple_cons"@,
            ClarityCostFunction::Add => "cost_add"@,
            ClarityCostFunction::Sub => "cost_sub"@,
            ClarityCostFunction::Mul => "cost_mul"@,
            ClarityCostFunction::Div => "cost_div"@,
            ClarityCostFunction::Geq => "cost_geq"@,
            ClarityCostFunction::Leq => "cost_leq"@,
            ClarityCostFunction::Le => "cost_le"@,
            ClarityCostFunction::Ge => "cost_ge"@,
            ClarityCostFunction::IntCast => "cost_int_cast"@,
            ClarityCostFunction::Mod => "cost_mod"@,
            ClarityCostFunction::Pow => "cost_pow"@,
            ClarityCostFunction::Sqrti => "cost_sqrti"@,
            ClarityCostFunction::Xor => "cost_xor"@,
            ClarityCostFunction::Not => "cost_not"@,
            ClarityCostFunction::Eq => "cost_eq"@,
            ClarityCostFunction::Begin => "cost_begin"@,
            ClarityCostFunction::Hash160 => "cost_hash160"@,
            ClarityCostFunction::Sha256 => "cost_sha256"@,
            ClarityCostFunction::Sha512 => "cost_sha512"@,
            ClarityCostFunction::Sha512t256 => "cost_sha512t256"@,
            ClarityCostFunction::Keccak256 => "cost_keccak256"@,
            ClarityCostFunction::Secp256k1recover => "cost_secp256k1recover"@,
            ClarityCostFunction::Secp256k1verify => "cost_secp256k1verify"@,
            ClarityCostFunction::Print => "cost_print"@,
            ClarityCostFunction::SomeCons => "cost_some_cons"@,
            ClarityCostFunction::OkCons => "cost_ok_cons"@,
            ClarityCostFunction::ErrCons => "cost_err_cons"@,
            ClarityCostFunction::DefaultTo => "cost_default_to"@,
            ClarityCostFunction::UnwrapRet => "cost_unwrap_ret"@,
            ClarityCostFunction::UnwrapErrOrRet => "cost_unwrap_err_or_ret"@,
            ClarityCostFunction::IsOkay => "cost_is_okay"@,
            ClarityCostFunction::IsNone => "cost_is_none"@,
            ClarityCostFunction::IsErr => "cost_is_err"@,
            ClarityCostFunction::IsSome => "cost_is_some"@,
            ClarityCostFunction::Unwrap => "cost_unwrap"@,
            ClarityCostFunction::UnwrapErr => "cost_unwrap_err"@,
            ClarityCostFunction::TryRet => "cost_try_ret"@,
            ClarityCostFunction::Match => "cost_match"@,
            ClarityCostFunction::Or => "cost_or"@,
            ClarityCostFunction::And => "cost_and"@,
            ClarityCostFunction::Append => "cost_append"@,
            ClarityCostFunction::Concat => "cost_concat"@,
            ClarityCostFunction::AsMaxLen => "cost_as_max_len"@,
            ClarityCostFunction::ContractCall => "cost_contract_call"@,
            ClarityCostFunction::ContractOf => "cost_contract_of"@,
            ClarityCostFunction::PrincipalOf => "cost_principal_of"@,
            ClarityCostFunction::AtBlock => "cost_at_block"@,
            ClarityCostFunction::LoadContract => "cost_load_contract"@,
            ClarityCostFunction::CreateMap => "cost_create_map"@,
            ClarityCostFunction::CreateVar => "cost_create_var"@,
            ClarityCostFunction::CreateNft => "cost_create_nft"@,
            ClarityCostFunction::CreateFt => "cost_create_ft"@,
            ClarityCostFunction::FetchEntry => "cost_fetch_entry"@,
            ClarityCostFunction::SetEntry => "cost_set_entry"@,
            ClarityCostFunction::FetchVar => "cost_fetch_var"@,
            ClarityCostFunction::SetVar => "cost_set_var"@,
            ClarityCostFunction::ContractStorage => "cost_contract_storage"@,
            ClarityCostFunction::BlockInfo => "cost_block_info"@,
            ClarityCostFunction::StxBalance => "cost_stx_balance"@,
            ClarityCostFunction::StxTransfer => "cost_stx_transfer"@,
            ClarityCostFunction::FtMint => "cost_ft_mint"@,
            ClarityCostFunction::FtTransfer => "cost_ft_transfer"@,
            ClarityCostFunction::FtBalance => "cost_ft_balance"@,
            ClarityCostFunction::NftMint => "cost_nft_mint"@,
            ClarityCostFunction::NftTransfer => "cost_nft_transfer"@,
            ClarityCostFunction::NftOwner => "cost_nft_owner"@,
        }
    }

    /// The position of this function in declaration order.
    pub open spec fn spec_index(self) -> nat {
        match self {
            ClarityCostFunction::AnalysisTypeAnnotate => 0,
            ClarityCostFunction::AnalysisTypeCheck => 1,
            ClarityCostFunction::AnalysisTypeLookup => 2,
            ClarityCostFunction::AnalysisVisit => 3,
            ClarityCostFunction::AnalysisIterableFunc => 4,
            ClarityCostFunction::AnalysisOptionCons => 5,
            ClarityCostFunction::AnalysisOptionCheck => 6,
            ClarityCostFunction::AnalysisBindName => 7,
            ClarityCostFunction::AnalysisListItemsCheck => 8,
            ClarityCostFunction::AnalysisCheckTupleGet => 9,
            ClarityCostFunction::AnalysisCheckTupleCons => 10,
            ClarityCostFunction::AnalysisTupleItemsCheck => 11,
            ClarityCostFunction::AnalysisCheckLet => 12,
            ClarityCostFunction::AnalysisLookupFunction => 13,
            ClarityCostFunction::AnalysisLookupFunctionTypes => 14,
            ClarityCostFunction::AnalysisLookupVariableConst => 15,
            ClarityCostFunction::AnalysisLookupVariableDepth => 16,
            ClarityCostFunction::AstParse => 17,
            ClarityCostFunction::AstCycleDetection => 18,
            ClarityCostFunction::AnalysisStorage => 19,
            ClarityCostFunction::AnalysisUseTraitEntry => 20,
            ClarityCostFunction::AnalysisGetFunctionEntry => 21,
            ClarityCostFunction::AnalysisFetchContractEntry => 22,
            ClarityCostFunction::LookupVariableDepth => 23,
            ClarityCostFunction::LookupVariableSize => 24,
            ClarityCostFunction::LookupFunction => 25,
            ClarityCostFunction::BindName => 26,
            ClarityCostFunction::InnerTypeCheckCost => 27,
            ClarityCostFunction::UserFunctionApplication => 28,
            ClarityCostFunction::Let => 29,
            ClarityCostFunction::If => 30,
            ClarityCostFunction::Asserts => 31,
            ClarityCostFunction::ListMap => 32,
            ClarityCostFunction::Filter => 33,
            ClarityCostFunction::Len => 34,
            ClarityCostFunction::Fold => 35,
            ClarityCostFunction::ListCons => 36,
            ClarityCostFunction::TypeParseStep => 37,
            ClarityCostFunction::DataHashCost => 38,
            ClarityCostFunction::TupleGet => 39,
            ClarityCostFunction::TupleCons => 40,
            ClarityCostFunction::Add => 41,
            ClarityCostFunction::Sub => 42,
            ClarityCostFunction::Mul => 43,
            ClarityCostFunction::Div => 44,
            ClarityCostFunction::Geq => 45,
            ClarityCostFunction::Leq => 46,
            ClarityCostFunction::Le => 47,
            ClarityCostFunction::Ge => 48,
            ClarityCostFunction::IntCast => 49,
            ClarityCostFunction::Mod => 50,
            ClarityCostFunction::Pow => 51,
            ClarityCostFunction::Sqrti => 52,
            ClarityCostFunction::Xor => 53,
            ClarityCostFunction::Not => 54,
            ClarityCostFunction::Eq => 55,
            ClarityCostFunction::Begin => 56,
            ClarityCostFunction::Hash160 => 57,
            ClarityCostFunction::Sha256 => 58,
            ClarityCostFunction::Sha512 => 59,
            ClarityCostFunction::Sha512t256 => 60,
            ClarityCostFunction::Keccak256 => 61,
            ClarityCostFunction::Secp256k1recover => 62,
            ClarityCostFunction::Secp256k1verify => 63,
            ClarityCostFunction::Print => 64,
            ClarityCostFunction::SomeCons => 65,
            ClarityCostFunction::OkCons => 66,
            ClarityCostFunction::ErrCons => 67,
            ClarityCostFunction::DefaultTo => 68,
            ClarityCostFunction::UnwrapRet => 69,
            ClarityCostFunction::UnwrapErrOrRet => 70,
            ClarityCostFunction::IsOkay => 71,
            ClarityCostFunction::IsNone => 72,
            ClarityCostFunction::IsErr => 73,
            ClarityCostFunction::IsSome => 74,
            ClarityCostFunction::Unwrap => 75,
            ClarityCostFunction::UnwrapErr => 76,
            ClarityCostFunction::TryRet => 77,
            ClarityCostFunction::Match => 78,
            ClarityCostFunction::Or => 79,
            ClarityCostFunction::And => 80,
            ClarityCostFunction::Append => 81,
            ClarityCostFunction::Concat => 82,
            ClarityCostFunction::AsMaxLen => 83,
            ClarityCostFunction::ContractCall => 84,
            ClarityCostFunction::ContractOf => 85,
            ClarityCostFunction::PrincipalOf => 86,
            ClarityCostFunction::AtBlock => 87,
            ClarityCostFunction::LoadContract => 88,
            ClarityCostFunction::CreateMap => 89,
            ClarityCostFunction::CreateVar => 90,
            ClarityCostFunction::CreateNft => 91,
            ClarityCostFunction::CreateFt => 92,
            ClarityCostFunction::FetchEntry => 93,
            ClarityCostFunction::SetEntry => 94,
            ClarityCostFunction::FetchVar => 95,
            ClarityCostFunction::SetVar => 96,
            ClarityCostFunction::ContractStorage => 97,
            ClarityCostFunction::BlockInfo => 98,
            ClarityCostFunction::StxBalance => 99,
            ClarityCostFunction::StxTransfer => 100,
            ClarityCostFunction::FtMint => 101,
            ClarityCostFunction::FtTransfer => 102,
            ClarityCostFunction::FtBalance => 103,
            ClarityCostFunction::NftMint => 104,
            ClarityCostFunction::NftTransfer => 105,
            ClarityCostFunction::NftOwner => 106,
        }
    }

    /// The function at position `i` in declaration order, if any.
    pub open spec fn spec_from_index(i: nat) -> Option<ClarityCostFunction> {
        if i == 0 {
            Some(ClarityCostFunction::AnalysisTypeAnnotate)
        } else if i == 1 {
            Some(ClarityCostFunction::AnalysisTypeCheck)
        } else if i == 2 {
            Some(ClarityCostFunction::AnalysisTypeLookup)
        } else if i == 3 {
            Some(ClarityCostFunction::AnalysisVisit)
        } else if i == 4 {
            Some(ClarityCostFunction::AnalysisIterableFunc)
        } else if i == 5 {
            Some(ClarityCostFunction::AnalysisOptionCons)
        } else if i == 6 {
            Some(ClarityCostFunction::AnalysisOptionCheck)
        } else if i == 7 {
            Some(ClarityCostFunction::AnalysisBindName)
        } else if i == 8 {
            Some(ClarityCostFunction::AnalysisListItemsCheck)
        } else if i == 9 {
            Some(ClarityCostFunction::AnalysisCheckTupleGet)
        } else if i == 10 {
            Some(ClarityCostFunction::AnalysisCheckTupleCons)
        } else if i == 11 {
            Some(ClarityCostFunction::AnalysisTupleItemsCheck)
        } else if i == 12 {
            Some(ClarityCostFunction::AnalysisCheckLet)
        } else if i == 13 {
            Some(ClarityCostFunction::AnalysisLookupFunction)
        } else if i == 14 {
            Some(ClarityCostFunction::AnalysisLookupFunctionTypes)
        } else if i == 15 {
            Some(ClarityCostFunction::AnalysisLookupVariableConst)
        } else if i == 16 {
            Some(ClarityCostFunction::AnalysisLookupVariableDepth)
        } else if i == 17 {
            Some(ClarityCostFunction::AstParse)
        } else if i == 18 {
            Some(ClarityCostFunction::AstCycleDetection)
        } else if i == 19 {
            Some(ClarityCostFunction::AnalysisStorage)
        } else if i == 20 {
            Some(ClarityCostFunction::AnalysisUseTraitEntry)
        } else if i == 21 {
            Some(ClarityCostFunction::AnalysisGetFunctionEntry)
        } else if i == 22 {
            Some(ClarityCostFunction::AnalysisFetchContractEntry)
        } else if i == 23 {
            Some(ClarityCostFunction::LookupVariableDepth)
        } else if i == 24 {
            Some(ClarityCostFunction::LookupVariableSize)
        } else if i == 25 {
            Some(ClarityCostFunction::LookupFunction)
        } else if i == 26 {
            Some(ClarityCostFunction::BindName)
        } else if i == 27 {
            Some(ClarityCostFunction::InnerTypeCheckCost)
        } else if i == 28 {
            Some(ClarityCostFunction::UserFunctionApplication)
        } else if i == 29 {
            Some(ClarityCostFunction::Let)
        } else if i == 30 {
            Some(ClarityCostFunction::If)
        } else if i == 31 {
            Some(ClarityCostFunction::Asserts)
        } else if i == 32 {
            Some(ClarityCostFunction::ListMap)
        } else if i == 33 {
            Some(ClarityCostFunction::Filter)
        } else if i == 34 {
            Some(ClarityCostFunction::Len)
        } else if i == 35 {
            Some(ClarityCostFunction::Fold)
        } else if i == 36 {
            Some(ClarityCostFunction::ListCons)
        } else if i == 37 {
            Some(ClarityCostFunction::TypeParseStep)
        } else if i == 38 {
            Some(ClarityCostFunction::DataHashCost)
        } else if i == 39 {
            Some(ClarityCostFunction::TupleGet)
        } else if i == 40 {
            Some(ClarityCostFunction::TupleCons)
        } else if i == 41 {
            Some(ClarityCostFunction::Add)
        } else if i == 42 {
            Some(ClarityCostFunction::Sub)
        } else if i == 43 {
            Some(ClarityCostFunction::Mul)
        } else if i == 44 {
            Some(ClarityCostFunction::Div)
        } else if i == 45 {
            Some(ClarityCostFunction::Geq)
        } else if i == 46 {
            Some(ClarityCostFunction::Leq)
        } else if i == 47 {
            Some(ClarityCostFunction::Le)
        } else if i == 48 {
            Some(ClarityCostFunction::Ge)
        } else if i == 49 {
            Some(ClarityCostFunction::IntCast)
        } else if i == 50 {
            Some(ClarityCostFunction::Mod)
        } else if i == 51 {
            Some(ClarityCostFunction::Pow)
        } else if i == 52 {
            Some(ClarityCostFunction::Sqrti)
        } else if i == 53 {
            Some(ClarityCostFunction::Xor)
        } else if i == 54 {
            Some(ClarityCostFunction::Not)
        } else if i == 55 {
            Some(ClarityCostFunction::Eq)
        } else if i == 56 {
            Some(ClarityCostFunction::Begin)
        } else if i == 57 {
            Some(ClarityCostFunction::Hash160)
        } else if i == 58 {
            Some(ClarityCostFunction::Sha256)
        } else if i == 59 {
            Some(ClarityCostFunction::Sha512)
        } else if i == 60 {
            Some(ClarityCostFunction::Sha512t256)
        } else if i == 61 {
            Some(ClarityCostFunction::Keccak256)
        } else if i == 62 {
            Some(ClarityCostFunction::Secp256k1recover)
        } else if i == 63 {
            Some(ClarityCostFunction::Secp256k1verify)
        } else if i == 64 {
            Some(ClarityCostFunction::Print)
        } else if i == 65 {
            Some(ClarityCostFunction::SomeCons)
        } else if i == 66 {
            Some(ClarityCostFunction::OkCons)
        } else if i == 67 {
            Some(ClarityCostFunction::ErrCons)
        } else if i == 68 {
            Some(ClarityCostFunction::DefaultTo)
        } else if i == 69 {
            Some(ClarityCostFunction::UnwrapRet)
        } else if i == 70 {
            Some(ClarityCostFunction::UnwrapErrOrRet)
        } else if i == 71 {
            Some(ClarityCostFunction::IsOkay)
        } else if i == 72 {
            Some(ClarityCostFunction::IsNone)
        } else if i == 73 {
            Some(ClarityCostFunction::IsErr)
        } else if i == 74 {
            Some(ClarityCostFunction::IsSome)
        } else if i == 75 {
            Some(ClarityCostFunction::Unwrap)
        } else if i == 76 {
            Some(ClarityCostFunction::UnwrapErr)
        } else if i == 77 {
            Some(ClarityCostFunction::TryRet)
        } else if i == 78 {
            Some(ClarityCostFunction::Match)
        } else if i == 79 {
            Some(ClarityCostFunction::Or)
        } else if i == 80 {
            Some(ClarityCostFunction::And)
        } else if i == 81 {
            Some(ClarityCostFunction::Append)
        } else if i == 82 {
            Some(ClarityCostFunction::Concat)
        } else if i == 83 {
            Some(ClarityCostFunction::AsMaxLen)
        } else if i == 84 {
            Some(ClarityCostFunction::ContractCall)
        } else if i == 85 {
            Some(ClarityCostFunction::ContractOf)
        } else if i == 86 {
            Some(ClarityCostFunction::PrincipalOf)
        } else if i == 87 {
            Some(ClarityCostFunction::AtBlock)
        } else if i == 88 {
            Some(ClarityCostFunction::LoadContract)
        } else if i == 89 {
            Some(ClarityCostFunction::CreateMap)
        } else if i == 90 {
            Some(ClarityCostFunction::CreateVar)
        } else if i == 91 {
            Some(ClarityCostFunction::CreateNft)
        } else if i == 92 {
            Some(ClarityCostFunction::CreateFt)
        } else if i == 93 {
            Some(ClarityCostFunction::FetchEntry)
        } else if i == 94 {
            Some(ClarityCostFunction::SetEntry)
        } else if i == 95 {
            Some(ClarityCostFunction::FetchVar)
        } else if i == 96 {
            Some(ClarityCostFunction::SetVar)
        } else if i == 97 {
            Some(ClarityCostFunction::ContractStorage)
        } else if i == 98 {
            Some(ClarityCostFunction::BlockInfo)
        } else if i == 99 {
            Some(ClarityCostFunction::StxBalance)
        } else if i == 100 {
            Some(ClarityCostFunction::StxTransfer)
        } else if i == 101 {
            Some(ClarityCostFunction::FtMint)
        } else if i == 102 {
            Some(ClarityCostFunction::FtTransfer)
        } else if i == 103 {
            Some(ClarityCostFunction::FtBalance)
        } else if i == 104 {
            Some(ClarityCostFunction::NftMint)
        } else if i == 105 {
            Some(ClarityCostFunction::NftTransfer)
        } else if i == 106 {
            Some(ClarityCostFunction::NftOwner)
        } else {
            None
        }
    }

    /// The closed-form specification that prices this function where no cost
    /// contract overrides it.
    pub open spec fn spec_builtin(self) -> SimpleCostSpecification {
        match self {
            ClarityCostFunction::AnalysisTypeAnnotate => SimpleCostSpecification::spec_runtime_only(CostFunctions::Linear(1, 1)),
            ClarityCostFunction::AnalysisTypeCheck => SimpleCostSpecification::spec_runtime_only(CostFunctions::Linear(1, 1)),
            ClarityCostFunction::AnalysisTypeLookup => SimpleCostSpecification::spec_runtime_only(CostFunctions::Linear(1, 1)),
            ClarityCostFunction::AnalysisVisit => SimpleCostSpecification::spec_runtime_only(CostFunctions::Constant(1)),
            ClarityCostFunction::AnalysisIterableFunc => SimpleCostSpecification::spec_runtime_only(CostFunctions::Constant(1)),
            ClarityCostFunction::AnalysisOptionCons => SimpleCostSpecification::spec_runtime_only(CostFunctions::Constant(1)),
            ClarityCostFunction::AnalysisOptionCheck => SimpleCostSpecification::spec_runtime_only(CostFunctions::Constant(1)),
            ClarityCostFunction::AnalysisBindName => SimpleCostSpecification::spec_runtime_only(CostFunctions::Linear(1, 1)),
            ClarityCostFunction::AnalysisListItemsCheck => SimpleCostSpecification::spec_runtime_only(CostFunctions::Linear(1, 1)),
            ClarityCostFunction::AnalysisCheckTupleGet => SimpleCostSpecification::spec_runtime_only(CostFunctions::LogN(1, 1)),
            ClarityCostFunction::AnalysisCheckTupleCons => SimpleCostSpecification::spec_runtime_only(CostFunctions::NLogN(1, 1)),
            ClarityCostFunction::AnalysisTupleItemsCheck => SimpleCostSpecification::spec_runtime_only(CostFunctions::Linear(1, 1)),
            ClarityCostFunction::AnalysisCheckLet => SimpleCostSpecification::spec_runtime_only(CostFunctions::Linear(1, 1)),
            ClarityCostFunction::AnalysisLookupFunction => SimpleCostSpecification::spec_runtime_only(CostFunctions::Constant(1)),
            ClarityCostFunction::AnalysisLookupFunctionTypes => SimpleCostSpecification::spec_runtime_only(CostFunctions::Linear(1, 1)),
            ClarityCostFunction::AnalysisLookupVariableConst => SimpleCostSpecification::spec_runtime_only(CostFunctions::Constant(1)),
            ClarityCostFunction::AnalysisLookupVariableDepth => SimpleCostSpecification::spec_runtime_only(CostFunctions::NLogN(1, 1)),
            ClarityCostFunction::AstParse => SimpleCostSpecification::spec_runtime_only(CostFunctions::Linear(1, 1)),
            ClarityCostFunction::AstCycleDetection => SimpleCostSpecification::spec_runtime_only(CostFunctions::Linear(1, 1)),
            ClarityCostFunction::AnalysisStorage => SimpleCostSpecification {
                write_length: CostFunctions::Linear(1, 1),
                write_count: CostFunctions::Constant(1),
                read_count: CostFunctions::Constant(1),
                read_length: CostFunctions::Constant(1),
                runtime: CostFunctions::Linear(1, 1),
            },
            ClarityCostFunction::AnalysisUseTraitEntry => SimpleCostSpecification {
                write_length: CostFunctions::Linear(1, 1),
                write_count: CostFunctions::Constant(0),
                read_count: CostFunctions::Constant(1),
                read_length: CostFunctions::Linear(1, 1),
                runtime: CostFunctions::Linear(1, 1),
            },
            ClarityCostFunction::AnalysisGetFunctionEntry => SimpleCostSpecification {
                write_length: CostFunctions::Constant(0),
                write_count: CostFunctions::Constant(0),
                read_count: CostFunctions::Constant(1),
                read_length: CostFunctions::Linear(1, 1),
                runtime: CostFunctions::Linear(1, 1),
            },
            ClarityCostFunction::AnalysisFetchContractEntry => SimpleCostSpecification {
                write_length: CostFunctions::Constant(0),
                write_count: CostFunctions::Constant(0),
                read_count: CostFunctions::Constant(1),
                read_length: CostFunctions::Linear(1, 1),
                runtime: CostFunctions::Linear(1, 1),
            },
            ClarityCostFunction::LookupVariableDepth => SimpleCostSpecification::spec_runtime_only(CostFunctions::Linear(1, 1)),
            ClarityCostFunction::LookupVariableSize => SimpleCostSpecification::spec_runtime_only(CostFunctions::Linear(1, 0)),
            ClarityCostFunction::LookupFunction => SimpleCostSpecification::spec_runtime_only(CostFunctions::Constant(1)),
            ClarityCostFunction::BindName => SimpleCostSpecification::spec_runtime_only(CostFunctions::Constant(1)),
            ClarityCostFunction::InnerTypeCheckCost => SimpleCostSpecification::spec_runtime_only(CostFunctions::Linear(1, 1)),
            ClarityCostFunction::UserFunctionApplication => SimpleCostSpecification::spec_runtime_only(CostFunctions::Linear(1, 1)),
            ClarityCostFunction::Let => SimpleCostSpecification::spec_runtime_only(CostFunctions::Linear(1, 1)),
            ClarityCostFunction::If => SimpleCostSpecification::spec_runtime_only(CostFunctions::Constant(1)),
            ClarityCostFunction::Asserts => SimpleCostSpecification::spec_runtime_only(CostFunctions::Constant(1)),
            ClarityCostFunction::ListMap => SimpleCostSpecification::spec_runtime_only(CostFunctions::Constant(1)),
            ClarityCostFunction::Filter => SimpleCostSpecification::spec_runtime_only(CostFunctions::Constant(1)),
            ClarityCostFunction::Len => SimpleCostSpecification::spec_runtime_only(CostFunctions::Constant(1)),
            ClarityCostFunction::Fold => SimpleCostSpecification::spec_runtime_only(CostFunctions::Constant(1)),
            ClarityCostFunction::ListCons => SimpleCostSpecification::spec_runtime_only(CostFunctions::Linear(1, 1)),
            ClarityCostFunction::TypeParseStep => SimpleCostSpecification::spec_runtime_only(CostFunctions::Constant(1)),
            ClarityCostFunction::DataHashCost => SimpleCostSpecification::spec_runtime_only(CostFunctions::Linear(1, 1)),
            ClarityCostFunction::TupleGet => SimpleCostSpecification::spec_runtime_only(CostFunctions::NLogN(1, 1)),
            ClarityCostFunction::TupleCons => SimpleCostSpecification::spec_runtime_only(CostFunctions::NLogN(1, 1)),
            ClarityCostFunction::Add => SimpleCostSpecification::spec_runtime_only(CostFunctions::Linear(1, 1)),
            ClarityCostFunction::Sub => SimpleCostSpecification::spec_runtime_only(CostFunctions::Linear(1, 1)),
            ClarityCostFunction::Mul => SimpleCostSpecification::spec_runtime_only(CostFunctions::Linear(1, 1)),
            ClarityCostFunction::Div => SimpleCostSpecification::spec_runtime_only(CostFunctions::Linear(1, 1)),
            ClarityCostFunction::Geq => SimpleCostSpecification::spec_runtime_only(CostFunctions::Constant(1)),
            ClarityCostFunction::Leq => SimpleCostSpecification::spec_runtime_only(CostFunctions::Constant(1)),
            ClarityCostFunction::Le => SimpleCostSpecification::spec_runtime_only(CostFunctions::Constant(1)),
            ClarityCostFunction::Ge => SimpleCostSpecification::spec_runtime_only(CostFunctions::Constant(1)),
            ClarityCostFunction::IntCast => SimpleCostSpecification::spec_runtime_only(CostFunctions::Constant(1)),
            ClarityCostFunction::Mod => SimpleCostSpecification::spec_runtime_only(CostFunctions::Constant(1)),
            ClarityCostFunction::Pow => SimpleCostSpecification::spec_runtime_only(CostFunctions::Constant(1)),
            ClarityCostFunction::Sqrti => SimpleCostSpecification::spec_runtime_only(CostFunctions::Constant(1)),
            ClarityCostFunction::Xor => SimpleCostSpecification::spec_runtime_only(CostFunctions::Constant(1)),
            ClarityCostFunction::Not => SimpleCostSpecification::spec_runtime_only(CostFunctions::Constant(1)),
            ClarityCostFunction::Eq => SimpleCostSpecification::spec_runtime_only(CostFunctions::Linear(1, 1)),
            ClarityCostFunction::Begin => SimpleCostSpecification::spec_runtime_only(CostFunctions::Constant(1)),
            ClarityCostFunction::Hash160 => SimpleCostSpecification::spec_runtime_only(CostFunctions::Constant(1)),
            ClarityCostFunction::Sha256 => SimpleCostSpecification::spec_runtime_only(CostFunctions::Constant(1)),
            ClarityCostFunction::Sha512 => SimpleCostSpecification::spec_runtime_only(CostFunctions::Constant(1)),
            ClarityCostFunction::Sha512t256 => SimpleCostSpecification::spec_runtime_only(CostFunctions::Constant(1)),
            ClarityCostFunction::Keccak256 => SimpleCostSpecification::spec_runtime_only(CostFunctions::Constant(1)),
            ClarityCostFunction::Secp256k1recover => SimpleCostSpecification::spec_runtime_only(CostFunctions::Constant(1)),
            ClarityCostFunction::Secp256k1verify => SimpleCostSpecification::spec_runtime_only(CostFunctions::Constant(1)),
            ClarityCostFunction::Print => SimpleCostSpecification::spec_runtime_only(CostFunctions::Linear(1, 1)),
            ClarityCostFunction::SomeCons => SimpleCostSpecification::spec_runtime_only(CostFunctions::Constant(1)),
            ClarityCostFunction::OkCons => SimpleCostSpecification::spec_runtime_only(CostFunctions::Constant(1)),
            ClarityCostFunction::ErrCons => SimpleCostSpecification::spec_runtime_only(CostFunctions::Constant(1)),
            ClarityCostFunction::DefaultTo => SimpleCostSpecification::spec_runtime_only(CostFunctions::Constant(1)),
            ClarityCostFunction::UnwrapRet => SimpleCostSpecification::spec_runtime_only(CostFunctions::Constant(1)),
            ClarityCostFunction::UnwrapErrOrRet => SimpleCostSpecification::spec_runtime_only(CostFunctions::Constant(1)),
            ClarityCostFunction::IsOkay => SimpleCostSpecification::spec_runtime_only(CostFunctions::Constant(1)),
            ClarityCostFunction::IsNone => SimpleCostSpecification::spec_runtime_only(CostFunctions::Constant(1)),
            ClarityCostFunction::IsErr => SimpleCostSpecification::spec_runtime_only(CostFunctions::Constant(1)),
            ClarityCostFunction::IsSome => SimpleCostSpecification::spec_runtime_only(CostFunctions::Constant(1)),
            ClarityCostFunction::Unwrap => SimpleCostSpecification::spec_runtime_only(CostFunctions::Constant(1)),
            ClarityCostFunction::UnwrapErr => SimpleCostSpecification::spec_runtime_only(CostFunctions::Constant(1)),
            ClarityCostFunction::TryRet => SimpleCostSpecification::spec_runtime_only(CostFunctions::Constant(1)),
            ClarityCostFunction::Match => SimpleCostSpecification::spec_runtime_only(CostFunctions::Constant(1)),
            ClarityCostFunction::Or => SimpleCostSpecification::spec_runtime_only(CostFunctions::Linear(1, 1)),
            ClarityCostFunction::And => SimpleCostSpecification::spec_runtime_only(CostFunctions::Linear(1, 1)),
            ClarityCostFunction::Append => SimpleCostSpecification::spec_runtime_only(CostFunctions::Linear(1, 1)),
            ClarityCostFunction::Concat => SimpleCostSpecification::spec_runtime_only(CostFunctions::Linear(1, 1)),
            ClarityCostFunction::AsMaxLen => SimpleCostSpecification::spec_runtime_only(CostFunctions::Constant(1)),
            ClarityCostFunction::ContractCall => SimpleCostSpecification::spec_runtime_only(CostFunctions::Constant(1)),
            ClarityCostFunction::ContractOf => SimpleCostSpecification::spec_runtime_only(CostFunctions::Constant(1)),
            ClarityCostFunction::PrincipalOf => SimpleCostSpecification::spec_runtime_only(CostFunctions::Constant(1)),
            ClarityCostFunction::AtBlock => SimpleCostSpecification {
                write_length: CostFunctions::Constant(0),
                write_count: CostFunctions::Constant(0),
                read_count: CostFunctions::Constant(1),
                read_length: CostFunctions::Constant(1),
                runtime: CostFunctions::Constant(1),
            },
            ClarityCostFunction::LoadContract => SimpleCostSpecification {
                write_length: CostFunctions::Constant(0),
                write_count: CostFunctions::Constant(0),
                read_count: CostFunctions::Constant(1),
                read_length: CostFunctions::Linear(1, 1),
                runtime: CostFunctions::Linear(1, 1),
            },
            ClarityCostFunction::CreateMap => SimpleCostSpecification {
                write_length: CostFunctions::Linear(1, 1),
                write_count: CostFunctions::Constant(1),
                read_count: CostFunctions::Constant(0),
                read_length: CostFunctions::Constant(0),
                runtime: CostFunctions::Linear(1, 1),
            },
            ClarityCostFunction::CreateVar => SimpleCostSpecification {
                write_length: CostFunctions::Linear(1, 1),
                write_count: CostFunctions::Constant(2),
                read_count: CostFunctions::Constant(0),
                read_length: CostFunctions::Constant(0),
                runtime: CostFunctions::Linear(1, 1),
            },
            ClarityCostFunction::CreateNft => SimpleCostSpecification {
                write_length: CostFunctions::Linear(1, 1),
                write_count: CostFunctions::Constant(1),
                read_count: CostFunctions::Constant(0),
                read_length: CostFunctions::Constant(0),
                runtime: CostFunctions::Linear(1, 1),
            },
            ClarityCostFunction::CreateFt => SimpleCostSpecification {
                write_length: CostFunctions::Constant(1),
                write_count: CostFunctions::Constant(2),
                read_count: CostFunctions::Constant(0),
                read_length: CostFunctions::Constant(0),
                runtime: CostFunctions::Constant(1),
            },
            ClarityCostFunction::FetchEntry => SimpleCostSpecification {
                write_length: CostFunctions::Constant(0),
                write_count: CostFunctions::Constant(0),
                read_count: CostFunctions::Constant(1),
                read_length: CostFunctions::Linear(1, 1),
                runtime: CostFunctions::Linear(1, 1),
            },
            ClarityCostFunction::SetEntry => SimpleCostSpecification {
                write_length: CostFunctions::Linear(1, 1),
                write_count: CostFunctions::Constant(1),
                read_count: CostFunctions::Constant(1),
                read_length: CostFunctions::Constant(0),
                runtime: CostFunctions::Linear(1, 1),
            },
            ClarityCostFunction::FetchVar => SimpleCostSpecification {
                write_length: CostFunctions::Constant(0),
                write_count: CostFunctions::Constant(0),
                read_count: CostFunctions::Constant(1),
                read_length: CostFunctions::Linear(1, 1),
                runtime: CostFunctions::Linear(1, 1),
            },
            ClarityCostFunction::SetVar => SimpleCostSpecification {
                write_length: CostFunctions::Linear(1, 1),
                write_count: CostFunctions::Constant(1),
                read_count: CostFunctions::Constant(1),
                read_length: CostFunctions::Constant(0),
                runtime: CostFunctions::Linear(1, 1),
            },
            ClarityCostFunction::ContractStorage => SimpleCostSpecification {
                write_length: CostFunctions::Linear(1, 1),
                write_count: CostFunctions::Constant(1),
                read_count: CostFunctions::Constant(0),
                read_length: CostFunctions::Constant(0),
                runtime: CostFunctions::Linear(1, 1),
            },
            ClarityCostFunction::BlockInfo => SimpleCostSpecification {
                write_length: CostFunctions::Constant(0),
                write_count: CostFunctions::Constant(0),
                read_count: CostFunctions::Constant(1),
                read_length: CostFunctions::Constant(1),
                runtime: CostFunctions::Constant(1),
            },
            ClarityCostFunction::StxBalance => SimpleCostSpecification {
                write_length: CostFunctions::Constant(0),
                write_count: CostFunctions::Constant(0),
                read_count: CostFunctions::Constant(1),
                read_length: CostFunctions::Constant(1),
                runtime: CostFunctions::Constant(1),
            },
            ClarityCostFunction::StxTransfer => SimpleCostSpecification {
                write_length: CostFunctions::Constant(1),
                write_count: CostFunctions::Constant(1),
                read_count: CostFunctions::Constant(1),
                read_length: CostFunctions::Constant(1),
                runtime: CostFunctions::Constant(1),
            },
            ClarityCostFunction::FtMint => SimpleCostSpecification {
                write_length: CostFunctions::Constant(1),
                write_count: CostFunctions::Constant(2),
                read_count: CostFunctions::Constant(2),
                read_length: CostFunctions::Constant(1),
                runtime: CostFunctions::Constant(1),
            },
            ClarityCostFunction::FtTransfer => SimpleCostSpecification {
                write_length: CostFunctions::Constant(1),
                write_count: CostFunctions::Constant(2),
                read_count: CostFunctions::Constant(2),
                read_length: CostFunctions::Constant(1),
                runtime: CostFunctions::Constant(1),
            },
            ClarityCostFunction::FtBalance => SimpleCostSpecification {
                write_length: CostFunctions::Constant(0),
                write_count: CostFunctions::Constant(0),
                read_count: CostFunctions::Constant(1),
                read_length: CostFunctions::Constant(1),
                runtime: CostFunctions::Constant(1),
            },
            ClarityCostFunction::NftMint => SimpleCostSpecification {
                write_length: CostFunctions::Constant(1),
                write_count: CostFunctions::Constant(1),
                read_count: CostFunctions::Constant(1),
                read_length: CostFunctions::Constant(1),
                runtime: CostFunctions::Linear(1, 1),
            },
            ClarityCostFunction::NftTransfer => SimpleCostSpecification {
                write_length: CostFunctions::Constant(1),
                write_count: CostFunctions::Constant(1),
                read_count: CostFunctions::Constant(1),
                read_length: CostFunctions::Constant(1),
                runtime: CostFunctions::Linear(1, 1),
            },
            ClarityCostFunction::NftOwner => SimpleCostSpecification {
                write_length: CostFunctions::Constant(0),
                write_count: CostFunctions::Constant(0),
                read_count: CostFunctions::Constant(1),
                read_length: CostFunctions::Constant(1),
                runtime: CostFunctions::Linear(1, 1),
            },
        }
    }

    pub fn get_name(&self) -> (r: String)
        ensures
            r@ == self.spec_name(),
    {
        match self {
            ClarityCostFunction::AnalysisTypeAnnotate => String::from_str("cost_analysis_type_annotate"),
            ClarityCostFunction::AnalysisTypeCheck => String::from_str("cost_analysis_type_check"),
            ClarityCostFunction::AnalysisTypeLookup => String::from_str("cost_analysis_type_lookup"),
            ClarityCostFunction::AnalysisVisit => String::from_str("cost_analysis_visit"),
            ClarityCostFunction::AnalysisIterableFunc => String::from_str("cost_analysis_iterable_func"),
            ClarityCostFunction::AnalysisOptionCons => String::from_str("cost_analysis_option_cons"),
            ClarityCostFunction::AnalysisOptionCheck => String::from_str("cost_analysis_option_check"),
            ClarityCostFunction::AnalysisBindName => String::from_str("cost_analysis_bind_name"),
            ClarityCostFunction::AnalysisListItemsCheck => String::from_str("cost_analysis_list_items_check"),
            ClarityCostFunction::AnalysisCheckTupleGet => String::from_str("cost_analysis_check_tuple_get"),
            ClarityCostFunction::AnalysisCheckTupleCons => String::from_str("cost_analysis_check_tuple_cons"),
            ClarityCostFunction::AnalysisTupleItemsCheck => String::from_str("cost_analysis_tuple_items_check"),
            ClarityCostFunction::AnalysisCheckLet => String::from_str("cost_analysis_check_let"),
            ClarityCostFunction::AnalysisLookupFunction => String::from_str("cost_analysis_lookup_function"),
            ClarityCostFunction::AnalysisLookupFunctionTypes => String::from_str("cost_analysis_lookup_function_types"),
            ClarityCostFunction::AnalysisLookupVariableConst => String::from_str("cost_analysis_lookup_variable_const"),
            ClarityCostFunction::AnalysisLookupVariableDepth => String::from_str("cost_analysis_lookup_variable_depth"),
            ClarityCostFunction::AstParse => String::from_str("cost_ast_parse"),
            ClarityCostFunction::AstCycleDetection => String::from_str("cost_ast_cycle_detection"),
            ClarityCostFunction::AnalysisStorage => String::from_str("cost_analysis_storage"),
            ClarityCostFunction::AnalysisUseTraitEntry => String::from_str("cost_analysis_use_trait_entry"),
            ClarityCostFunction::AnalysisGetFunctionEntry => String::from_str("cost_analysis_get_function_entry"),
            ClarityCostFunction::AnalysisFetchContractEntry => String::from_str("cost_analysis_fetch_contract_entry"),
            ClarityCostFunction::LookupVariableDepth => String::from_str("cost_lookup_variable_depth"),
            ClarityCostFunction::LookupVariableSize => String::from_str("cost_lookup_variable_size"),
            ClarityCostFunction::LookupFunction => String::from_str("cost_lookup_function"),
            ClarityCostFunction::BindName => String::from_str("cost_bind_name"),
            ClarityCostFunction::InnerTypeCheckCost => String::from_str("cost_inner_type_check_cost"),
            ClarityCostFunction::UserFunctionApplication => String::from_str("cost_user_function_application"),
            ClarityCostFunction::Let => String::from_str("cost_let"),
            ClarityCostFunction::If => String::from_str("cost_if"),
            ClarityCostFunction::Asserts => String::from_str("cost_asserts"),
            ClarityCostFunction::ListMap => String::from_str("cost_map"),
            ClarityCostFunction::Filter => String::from_str("cost_filter"),
            ClarityCostFunction::Len => String::from_str("cost_len"),
            ClarityCostFunction::Fold => String::from_str("cost_fold"),
            ClarityCostFunction::ListCons => String::from_str("cost_list_cons"),
            ClarityCostFunction::TypeParseStep => String::from_str("cost_type_parse_step"),
            ClarityCostFunction::DataHashCost => String::from_str("cost_data_hash_cost"),
            ClarityCostFunction::TupleGet => String::from_str("cost_tuple_get"),
            ClarityCostFunction::TupleCons => String::from_str("cost_tuple_cons"),
            ClarityCostFunction::Add => String::from_str("cost_add"),
            ClarityCostFunction::Sub => String::from_str("cost_sub"),
            ClarityCostFunction::Mul => String::from_str("cost_mul"),
            ClarityCostFunction::Div => String::from_str("cost_div"),
            ClarityCostFunction::Geq => String::from_str("cost_geq"),
            ClarityCostFunction::Leq => String::from_str("cost_leq"),
            ClarityCostFunction::Le => String::from_str("cost_le"),
            ClarityCostFunction::Ge => String::from_str("cost_ge"),
            ClarityCostFunction::IntCast => String::from_str("cost_int_cast"),
            ClarityCostFunction::Mod => String::from_str("cost_mod"),
            ClarityCostFunction::Pow => String::from_str("cost_pow"),
            ClarityCostFunction::Sqrti => String::from_str("cost_sqrti"),
            ClarityCostFunction::Xor => String::from_str("cost_xor"),
            ClarityCostFunction::Not => String::from_str("cost_not"),
            ClarityCostFunction::Eq => String::from_str("cost_eq"),
            ClarityCostFunction::Begin => String::from_str("cost_begin"),
            ClarityCostFunction::Hash160 => String::from_str("cost_hash160"),
            ClarityCostFunction::Sha256 => String::from_str("cost_sha256"),
            ClarityCostFunction::Sha512 => String::from_str("cost_sha512"),
            ClarityCostFunction::Sha512t256 => String::from_str("cost_sha512t256"),
            ClarityCostFunction::Keccak256 => String::from_str("cost_keccak256"),
            ClarityCostFunction::Secp256k1recover => String::from_str("cost_secp256k1recover"),
            ClarityCostFunction::Secp256k1verify => String::from_str("cost_secp256k1verify"),
            ClarityCostFunction::Print => String::from_str("cost_print"),
            ClarityCostFunction::SomeCons => String::from_str("cost_some_cons"),
            ClarityCostFunction::OkCons => String::from_str("cost_ok_cons"),
            ClarityCostFunction::ErrCons => String::from_str("cost_err_cons"),
            ClarityCostFunction::DefaultTo => String::from_str("cost_default_to"),
            ClarityCostFunction::UnwrapRet => String::from_str("cost_unwrap_ret"),
            ClarityCostFunction::UnwrapErrOrRet => String::from_str("cost_unwrap_err_or_ret"),
            ClarityCostFunction::IsOkay => String::from_str("cost_is_okay"),
            ClarityCostFunction::IsNone => String::from_str("cost_is_none"),
            ClarityCostFunction::IsErr => String::from_str("cost_is_err"),
            ClarityCostFunction::IsSome => String::from_str("cost_is_some"),
            ClarityCostFunction::Unwrap => String::from_str("cost_unwrap"),
            ClarityCostFunction::UnwrapErr => String::from_str("cost_unwrap_err"),
            ClarityCostFunction::TryRet => String::from_str("cost_try_ret"),
            ClarityCostFunction::Match => String::from_str("cost_match"),
            ClarityCostFunction::Or => String::from_str("cost_or"),
            ClarityCostFunction::And => String::from_str("cost_and"),
            ClarityCostFunction::Append => String::from_str("cost_append"),
            ClarityCostFunction::Concat => String::from_str("cost_concat"),
            ClarityCostFunction::AsMaxLen => String::from_str("cost_as_max_len"),
            ClarityCostFunction::ContractCall => String::from_str("cost_contract_call"),
            ClarityCostFunction::ContractOf => String::from_str("cost_contract_of"),
            ClarityCostFunction::PrincipalOf => String::from_str("cost_principal_of"),
            ClarityCostFunction::AtBlock => String::from_str("cost_at_block"),
            ClarityCostFunction::LoadContract => String::from_str("cost_load_contract"),
            ClarityCostFunction::CreateMap => String::from_str("cost_create_map"),
            ClarityCostFunction::CreateVar => String::from_str("cost_create_var"),
            ClarityCostFunction::CreateNft => String::from_str("cost_create_nft"),
            ClarityCostFunction::CreateFt => String::from_str("cost_create_ft"),
            ClarityCostFunction::FetchEntry => String::from_str("cost_fetch_entry"),
            ClarityCostFunction::SetEntry => String::from_str("cost_set_entry"),
            ClarityCostFunction::FetchVar => String::from_str("cost_fetch_var"),
            ClarityCostFunction::SetVar => String::from_str("cost_set_var"),
            ClarityCostFunction::ContractStorage => String::from_str("cost_contract_storage"),
            ClarityCostFunction::BlockInfo => String::from_str("cost_block_info"),
            ClarityCostFunction::StxBalance => String::from_str("cost_stx_balance"),
            ClarityCostFunction::StxTransfer => String::from_str("cost_stx_transfer"),
            ClarityCostFunction::FtMint => String::from_str("cost_ft_mint"),
            ClarityCostFunction::FtTransfer => String::from_str("cost_ft_transfer"),
            ClarityCostFunction::FtBalance => String::from_str("cost_ft_balance"),
            ClarityCostFunction::NftMint => String::from_str("cost_nft_mint"),
            ClarityCostFunction::NftTransfer => String::from_str("cost_nft_transfer"),
            ClarityCostFunction::NftOwner => String::from_str("cost_nft_owner"),
        }
    }

    pub fn index(&self) -> (r: usize)
        ensures
            r == self.spec_index(),
    {
        match self {
            ClarityCostFunction::AnalysisTypeAnnotate => 0,
            ClarityCostFunction::AnalysisTypeCheck => 1,
            ClarityCostFunction::AnalysisTypeLookup => 2,
            ClarityCostFunction::AnalysisVisit => 3,
            ClarityCostFunction::AnalysisIterableFunc => 4,
            ClarityCostFunction::AnalysisOptionCons => 5,
            ClarityCostFunction::AnalysisOptionCheck => 6,
            ClarityCostFunction::AnalysisBindName => 7,
            ClarityCostFunction::AnalysisListItemsCheck => 8,
            ClarityCostFunction::AnalysisCheckTupleGet => 9,
            ClarityCostFunction::AnalysisCheckTupleCons => 10,
            ClarityCostFunction::AnalysisTupleItemsCheck => 11,
            ClarityCostFunction::AnalysisCheckLet => 12,
            ClarityCostFunction::AnalysisLookupFunction => 13,
            ClarityCostFunction::AnalysisLookupFunctionTypes => 14,
            ClarityCostFunction::AnalysisLookupVariableConst => 15,
            ClarityCostFunction::AnalysisLookupVariableDepth => 16,
            ClarityCostFunction::AstParse => 17,
            ClarityCostFunction::AstCycleDetection => 18,
            ClarityCostFunction::AnalysisStorage => 19,
            ClarityCostFunction::AnalysisUseTraitEntry => 20,
            ClarityCostFunction::AnalysisGetFunctionEntry => 21,
            ClarityCostFunction::AnalysisFetchContractEntry => 22,
            ClarityCostFunction::LookupVariableDepth => 23,
            ClarityCostFunction::LookupVariableSize => 24,
            ClarityCostFunction::LookupFunction => 25,
            ClarityCostFunction::BindName => 26,
            ClarityCostFunction::InnerTypeCheckCost => 27,
            ClarityCostFunction::UserFunctionApplication => 28,
            ClarityCostFunction::Let => 29,
            ClarityCostFunction::If => 30,
            ClarityCostFunction::Asserts => 31,
            ClarityCostFunction::ListMap => 32,
            ClarityCostFunction::Filter => 33,
            ClarityCostFunction::Len => 34,
            ClarityCostFunction::Fold => 35,
            ClarityCostFunction::ListCons => 36,
            ClarityCostFunction::TypeParseStep => 37,
            ClarityCostFunction::DataHashCost => 38,
            ClarityCostFunction::TupleGet => 39,
            ClarityCostFunction::TupleCons => 40,
            ClarityCostFunction::Add => 41,
            ClarityCostFunction::Sub => 42,
            ClarityCostFunction::Mul => 43,
            ClarityCostFunction::Div => 44,
            ClarityCostFunction::Geq => 45,
            ClarityCostFunction::Leq => 46,
            ClarityCostFunction::Le => 47,
            ClarityCostFunction::Ge => 48,
            ClarityCostFunction::IntCast => 49,
            ClarityCostFunction::Mod => 50,
            ClarityCostFunction::Pow => 51,
            ClarityCostFunction::Sqrti => 52,
            ClarityCostFunction::Xor => 53,
            ClarityCostFunction::Not => 54,
            ClarityCostFunction::Eq => 55,
            ClarityCostFunction::Begin => 56,
            ClarityCostFunction::Hash160 => 57,
            ClarityCostFunction::Sha256 => 58,
            ClarityCostFunction::Sha512 => 59,
            ClarityCostFunction::Sha512t256 => 60,
            ClarityCostFunction::Keccak256 => 61,
            ClarityCostFunction::Secp256k1recover => 62,
            ClarityCostFunction::Secp256k1verify => 63,
            ClarityCostFunction::Print => 64,
            ClarityCostFunction::SomeCons => 65,
            ClarityCostFunction::OkCons => 66,
            ClarityCostFunction::ErrCons => 67,
            ClarityCostFunction::DefaultTo => 68,
            ClarityCostFunction::UnwrapRet => 69,
            ClarityCostFunction::UnwrapErrOrRet => 70,
            ClarityCostFunction::IsOkay => 71,
            ClarityCostFunction::IsNone => 72,
            ClarityCostFunction::IsErr => 73,
            ClarityCostFunction::IsSome => 74,
            ClarityCostFunction::Unwrap => 75,
            ClarityCostFunction::UnwrapErr => 76,
            ClarityCostFunction::TryRet => 77,
            ClarityCostFunction::Match => 78,
            ClarityCostFunction::Or => 79,
            ClarityCostFunction::And => 80,
            ClarityCostFunction::Append => 81,
            ClarityCostFunction::Concat => 82,
            ClarityCostFunction::AsMaxLen => 83,
            ClarityCostFunction::ContractCall => 84,
            ClarityCostFunction::ContractOf => 85,
            ClarityCostFunction::PrincipalOf => 86,
            ClarityCostFunction::AtBlock => 87,
            ClarityCostFunction::LoadContract => 88,
            ClarityCostFunction::CreateMap => 89,
            ClarityCostFunction::CreateVar => 90,
            ClarityCostFunction::CreateNft => 91,
            ClarityCostFunction::CreateFt => 92,
            ClarityCostFunction::FetchEntry => 93,
            ClarityCostFunction::SetEntry => 94,
            ClarityCostFunction::FetchVar => 95,
            ClarityCostFunction::SetVar => 96,
            ClarityCostFunction::ContractStorage => 97,
            ClarityCostFunction::BlockInfo => 98,
            ClarityCostFunction::StxBalance => 99,
            ClarityCostFunction::StxTransfer => 100,
            ClarityCostFunction::FtMint => 101,
            ClarityCostFunction::FtTransfer => 102,
            ClarityCostFunction::FtBalance => 103,
            ClarityCostFunction::NftMint => 104,
            ClarityCostFunction::NftTransfer => 105,
            ClarityCostFunction::NftOwner => 106,
        }
    }

    pub fn from_index(i: usize) -> (r: Option<ClarityCostFunction>)
        ensures
            r == ClarityCostFunction::spec_from_index(i as nat),
    {
        match i {
            0 => Some(ClarityCostFunction::AnalysisTypeAnnotate),
            1 => Some(ClarityCostFunction::AnalysisTypeCheck),
            2 => Some(ClarityCostFunction::AnalysisTypeLookup),
            3 => Some(ClarityCostFunction::AnalysisVisit),
            4 => Some(ClarityCostFunction::AnalysisIterableFunc),
            5 => Some(ClarityCostFunction::AnalysisOptionCons),
            6 => Some(ClarityCostFunction::AnalysisOptionCheck),
            7 => Some(ClarityCostFunction::AnalysisBindName),
            8 => Some(ClarityCostFunction::AnalysisListItemsCheck),
            9 => Some(ClarityCostFunction::AnalysisCheckTupleGet),
            10 => Some(ClarityCostFunction::AnalysisCheckTupleCons),
            11 => Some(ClarityCostFunction::AnalysisTupleItemsCheck),
            12 => Some(ClarityCostFunction::AnalysisCheckLet),
            13 => Some(ClarityCostFunction::AnalysisLookupFunction),
            14 => Some(ClarityCostFunction::AnalysisLookupFunctionTypes),
            15 => Some(ClarityCostFunction::AnalysisLookupVariableConst),
            16 => Some(ClarityCostFunction::AnalysisLookupVariableDepth),
            17 => Some(ClarityCostFunction::AstParse),
            18 => Some(ClarityCostFunction::AstCycleDetection),
            19 => Some(ClarityCostFunction::AnalysisStorage),
            20 => Some(ClarityCostFunction::AnalysisUseTraitEntry),
            21 => Some(ClarityCostFunction::AnalysisGetFunctionEntry),
            22 => Some(ClarityCostFunction::AnalysisFetchContractEntry),
            23 => Some(ClarityCostFunction::LookupVariableDepth),
            24 => Some(ClarityCostFunction::LookupVariableSize),
            25 => Some(ClarityCostFunction::LookupFunction),
            26 => Some(ClarityCostFunction::BindName),
            27 => Some(ClarityCostFunction::InnerTypeCheckCost),
            28 => Some(ClarityCostFunction::UserFunctionApplication),
            29 => Some(ClarityCostFunction::Let),
            30 => Some(ClarityCostFunction::If),
            31 => Some(ClarityCostFunction::Asserts),
            32 => Some(ClarityCostFunction::ListMap),
            33 => Some(ClarityCostFunction::Filter),
            34 => Some(ClarityCostFunction::Len),
            35 => Some(ClarityCostFunction::Fold),
            36 => Some(ClarityCostFunction::ListCons),
            37 => Some(ClarityCostFunction::TypeParseStep),
            38 => Some(ClarityCostFunction::DataHashCost),
            39 => Some(ClarityCostFunction::TupleGet),
            40 => Some(ClarityCostFunction::TupleCons),
            41 => Some(ClarityCostFunction::Add),
            42 => Some(ClarityCostFunction::Sub),
            43 => Some(ClarityCostFunction::Mul),
            44 => Some(ClarityCostFunction::Div),
            45 => Some(ClarityCostFunction::Geq),
            46 => Some(ClarityCostFunction::Leq),
            47 => Some(ClarityCostFunction::Le),
            48 => Some(ClarityCostFunction::Ge),
            49 => Some(ClarityCostFunction::IntCast),
            50 => Some(ClarityCostFunction::Mod),
            51 => Some(ClarityCostFunction::Pow),
            52 => Some(ClarityCostFunction::Sqrti),
            53 => Some(ClarityCostFunction::Xor),
            54 => Some(ClarityCostFunction::Not),
            55 => Some(ClarityCostFunction::Eq),
            56 => Some(ClarityCostFunction::Begin),
            57 => Some(ClarityCostFunction::Hash160),
            58 => Some(ClarityCostFunction::Sha256),
            59 => Some(ClarityCostFunction::Sha512),
            60 => Some(ClarityCostFunction::Sha512t256),
            61 => Some(ClarityCostFunction::Keccak256),
            62 => Some(ClarityCostFunction::Secp256k1recover),
            63 => Some(ClarityCostFunction::Secp256k1verify),
            64 => Some(ClarityCostFunction::Print),
            65 => Some(ClarityCostFunction::SomeCons),
            66 => Some(ClarityCostFunction::OkCons),
            67 => Some(ClarityCostFunction::ErrCons),
            68 => Some(ClarityCostFunction::DefaultTo),
            69 => Some(ClarityCostFunction::UnwrapRet),
            70 => Some(ClarityCostFunction::UnwrapErrOrRet),
            71 => Some(ClarityCostFunction::IsOkay),
            72 => Some(ClarityCostFunction::IsNone),
            73 => Some(ClarityCostFunction::IsErr),
            74 => Some(ClarityCostFunction::IsSome),
            75 => Some(ClarityCostFunction::Unwrap),
            76 => Some(ClarityCostFunction::UnwrapErr),
            77 => Some(ClarityCostFunction::TryRet),
            78 => Some(ClarityCostFunction::Match),
            79 => Some(ClarityCostFunction::Or),
            80 => Some(ClarityCostFunction::And),
            81 => Some(ClarityCostFunction::Append),
            82 => Some(ClarityCostFunction::Concat),
            83 => Some(ClarityCostFunction::AsMaxLen),
            84 => Some(ClarityCostFunction::ContractCall),
            85 => Some(ClarityCostFunction::ContractOf),
            86 => Some(ClarityCostFunction::PrincipalOf),
            87 => Some(ClarityCostFunction::AtBlock),
            88 => Some(ClarityCostFunction::LoadContract),
            89 => Some(ClarityCostFunction::CreateMap),
            90 => Some(ClarityCostFunction::CreateVar),
            91 => Some(ClarityCostFunction::CreateNft),
            92 => Some(ClarityCostFunction::CreateFt),
            93 => Some(ClarityCostFunction::FetchEntry),
            94 => Some(ClarityCostFunction::SetEntry),
            95 => Some(ClarityCostFunction::FetchVar),
            96 => Some(ClarityCostFunction::SetVar),
            97 => Some(ClarityCostFunction::ContractStorage),
            98 => Some(ClarityCostFunction::BlockInfo),
            99 => Some(ClarityCostFunction::StxBalance),
            100 => Some(ClarityCostFunction::StxTransfer),
            101 => Some(ClarityCostFunction::FtMint),
            102 => Some(ClarityCostFunction::FtTransfer),
            103 => Some(ClarityCostFunction::FtBalance),
            104 => Some(ClarityCostFunction::NftMint),
            105 => Some(ClarityCostFunction::NftTransfer),
            106 => Some(ClarityCostFunction::NftOwner),
            _ => None,
        }
    }

    /// The closed-form specification of this function.
    pub fn builtin_cost_specification(&self) -> (r: SimpleCostSpecification)
        ensures
            r == self.spec_builtin(),
    {
        match self {
            ClarityCostFunction::AnalysisTypeAnnotate => SimpleCostSpecification::runtime_only(CostFunctions::Linear(1, 1)),
            ClarityCostFunction::AnalysisTypeCheck => SimpleCostSpecification::runtime_only(CostFunctions::Linear(1, 1)),
            ClarityCostFunction::AnalysisTypeLookup => SimpleCostSpecification::runtime_only(CostFunctions::Linear(1, 1)),
            ClarityCostFunction::AnalysisVisit => SimpleCostSpecification::runtime_only(CostFunctions::Constant(1)),
            ClarityCostFunction::AnalysisIterableFunc => SimpleCostSpecification::runtime_only(CostFunctions::Constant(1)),
            ClarityCostFunction::AnalysisOptionCons => SimpleCostSpecification::runtime_only(CostFunctions::Constant(1)),
            ClarityCostFunction::AnalysisOptionCheck => SimpleCostSpecification::runtime_only(CostFunctions::Constant(1)),
            ClarityCostFunction::AnalysisBindName => SimpleCostSpecification::runtime_only(CostFunctions::Linear(1, 1)),
            ClarityCostFunction::AnalysisListItemsCheck => SimpleCostSpecification::runtime_only(CostFunctions::Linear(1, 1)),
            ClarityCostFunction::AnalysisCheckTupleGet => SimpleCostSpecification::runtime_only(CostFunctions::LogN(1, 1)),
            ClarityCostFunction::AnalysisCheckTupleCons => SimpleCostSpecification::runtime_only(CostFunctions::NLogN(1, 1)),
            ClarityCostFunction::AnalysisTupleItemsCheck => SimpleCostSpecification::runtime_only(CostFunctions::Linear(1, 1)),
            ClarityCostFunction::AnalysisCheckLet => SimpleCostSpecification::runtime_only(CostFunctions::Linear(1, 1)),
            ClarityCostFunction::AnalysisLookupFunction => SimpleCostSpecification::runtime_only(CostFunctions::Constant(1)),
            ClarityCostFunction::AnalysisLookupFunctionTypes => SimpleCostSpecification::runtime_only(CostFunctions::Linear(1, 1)),
            ClarityCostFunction::AnalysisLookupVariableConst => SimpleCostSpecification::runtime_only(CostFunctions::Constant(1)),
            ClarityCostFunction::AnalysisLookupVariableDepth => SimpleCostSpecification::runtime_only(CostFunctions::NLogN(1, 1)),
            ClarityCostFunction::AstParse => SimpleCostSpecification::runtime_only(CostFunctions::Linear(1, 1)),
            ClarityCostFunction::AstCycleDetection => SimpleCostSpecification::runtime_only(CostFunctions::Linear(1, 1)),
            ClarityCostFunction::AnalysisStorage => SimpleCostSpecification {
                write_length: CostFunctions::Linear(1, 1),
                write_count: CostFunctions::Constant(1),
                read_count: CostFunctions::Constant(1),
                read_length: CostFunctions::Constant(1),
                runtime: CostFunctions::Linear(1, 1),
            },
            ClarityCostFunction::AnalysisUseTraitEntry => SimpleCostSpecification {
                write_length: CostFunctions::Linear(1, 1),
                write_count: CostFunctions::Constant(0),
                read_count: CostFunctions::Constant(1),
                read_length: CostFunctions::Linear(1, 1),
                runtime: CostFunctions::Linear(1, 1),
            },
            ClarityCostFunction::AnalysisGetFunctionEntry => SimpleCostSpecification {
                write_length: CostFunctions::Constant(0),
                write_count: CostFunctions::Constant(0),
                read_count: CostFunctions::Constant(1),
                read_length: CostFunctions::Linear(1, 1),
                runtime: CostFunctions::Linear(1, 1),
            },
            ClarityCostFunction::AnalysisFetchContractEntry => SimpleCostSpecification {
                write_length: CostFunctions::Constant(0),
                write_count: CostFunctions::Constant(0),
                read_count: CostFunctions::Constant(1),
                read_length: CostFunctions::Linear(1, 1),
                runtime: CostFunctions::Linear(1, 1),
            },
            ClarityCostFunction::LookupVariableDepth => SimpleCostSpecification::runtime_only(CostFunctions::Linear(1, 1)),
            ClarityCostFunction::LookupVariableSize => SimpleCostSpecification::runtime_only(CostFunctions::Linear(1, 0)),
            ClarityCostFunction::LookupFunction => SimpleCostSpecification::runtime_only(CostFunctions::Constant(1)),
            ClarityCostFunction::BindName => SimpleCostSpecification::runtime_only(CostFunctions::Constant(1)),
            ClarityCostFunction::InnerTypeCheckCost => SimpleCostSpecification::runtime_only(CostFunctions::Linear(1, 1)),
            ClarityCostFunction::UserFunctionApplication => SimpleCostSpecification::runtime_only(CostFunctions::Linear(1, 1)),
            ClarityCostFunction::Let => SimpleCostSpecification::runtime_only(CostFunctions::Linear(1, 1)),
            ClarityCostFunction::If => SimpleCostSpecification::runtime_only(CostFunctions::Constant(1)),
            ClarityCostFunction::Asserts => SimpleCostSpecification::runtime_only(CostFunctions::Constant(1)),
            ClarityCostFunction::ListMap => SimpleCostSpecification::runtime_only(CostFunctions::Constant(1)),
            ClarityCostFunction::Filter => SimpleCostSpecification::runtime_only(CostFunctions::Constant(1)),
            ClarityCostFunction::Len => SimpleCostSpecification::runtime_only(CostFunctions::Constant(1)),
            ClarityCostFunction::Fold => SimpleCostSpecification::runtime_only(CostFunctions::Constant(1)),
            ClarityCostFunction::ListCons => SimpleCostSpecification::runtime_only(CostFunctions::Linear(1, 1)),
            ClarityCostFunction::TypeParseStep => SimpleCostSpecification::runtime_only(CostFunctions::Constant(1)),
            ClarityCostFunction::DataHashCost => SimpleCostSpecification::runtime_only(CostFunctions::Linear(1, 1)),
            ClarityCostFunction::TupleGet => SimpleCostSpecification::runtime_only(CostFunctions::NLogN(1, 1)),
            ClarityCostFunction::TupleCons => SimpleCostSpecification::runtime_only(CostFunctions::NLogN(1, 1)),
            ClarityCostFunction::Add => SimpleCostSpecification::runtime_only(CostFunctions::Linear(1, 1)),
            ClarityCostFunction::Sub => SimpleCostSpecification::runtime_only(CostFunctions::Linear(1, 1)),
            ClarityCostFunction::Mul => SimpleCostSpecification::runtime_only(CostFunctions::Linear(1, 1)),
            ClarityCostFunction::Div => SimpleCostSpecification::runtime_only(CostFunctions::Linear(1, 1)),
            ClarityCostFunction::Geq => SimpleCostSpecification::runtime_only(CostFunctions::Constant(1)),
            ClarityCostFunction::Leq => SimpleCostSpecification::runtime_only(CostFunctions::Constant(1)),
            ClarityCostFunction::Le => SimpleCostSpecification::runtime_only(CostFunctions::Constant(1)),
            ClarityCostFunction::Ge => SimpleCostSpecification::runtime_only(CostFunctions::Constant(1)),
            ClarityCostFunction::IntCast => SimpleCostSpecification::runtime_only(CostFunctions::Constant(1)),
            ClarityCostFunction::Mod => SimpleCostSpecification::runtime_only(CostFunctions::Constant(1)),
            ClarityCostFunction::Pow => SimpleCostSpecification::runtime_only(CostFunctions::Constant(1)),
            ClarityCostFunction::Sqrti => SimpleCostSpecification::runtime_only(CostFunctions::Constant(1)),
            ClarityCostFunction::Xor => SimpleCostSpecification::runtime_only(CostFunctions::Constant(1)),
            ClarityCostFunction::Not => SimpleCostSpecification::runtime_only(CostFunctions::Constant(1)),
            ClarityCostFunction::Eq => SimpleCostSpecification::runtime_only(CostFunctions::Linear(1, 1)),
            ClarityCostFunction::Begin => SimpleCostSpecification::runtime_only(CostFunctions::Constant(1)),
            ClarityCostFunction::Hash160 => SimpleCostSpecification::runtime_only(CostFunctions::Constant(1)),
            ClarityCostFunction::Sha256 => SimpleCostSpecification::runtime_only(CostFunctions::Constant(1)),
            ClarityCostFunction::Sha512 => SimpleCostSpecification::runtime_only(CostFunctions::Constant(1)),
            ClarityCostFunction::Sha512t256 => SimpleCostSpecification::runtime_only(CostFunctions::Constant(1)),
            ClarityCostFunction::Keccak256 => SimpleCostSpecification::runtime_only(CostFunctions::Constant(1)),
            ClarityCostFunction::Secp256k1recover => SimpleCostSpecification::runtime_only(CostFunctions::Constant(1)),
            ClarityCostFunction::Secp256k1verify => SimpleCostSpecification::runtime_only(CostFunctions::Constant(1)),
            ClarityCostFunction::Print => SimpleCostSpecification::runtime_only(CostFunctions::Linear(1, 1)),
            ClarityCostFunction::SomeCons => SimpleCostSpecification::runtime_only(CostFunctions::Constant(1)),
            ClarityCostFunction::OkCons => SimpleCostSpecification::runtime_only(CostFunctions::Constant(1)),
            ClarityCostFunction::ErrCons => SimpleCostSpecification::runtime_only(CostFunctions::Constant(1)),
            ClarityCostFunction::DefaultTo => SimpleCostSpecification::runtime_only(CostFunctions::Constant(1)),
            ClarityCostFunction::UnwrapRet => SimpleCostSpecification::runtime_only(CostFunctions::Constant(1)),
            ClarityCostFunction::UnwrapErrOrRet => SimpleCostSpecification::runtime_only(CostFunctions::Constant(1)),
            ClarityCostFunction::IsOkay => SimpleCostSpecification::runtime_only(CostFunctions::Constant(1)),
            ClarityCostFunction::IsNone => SimpleCostSpecification::runtime_only(CostFunctions::Constant(1)),
            ClarityCostFunction::IsErr => SimpleCostSpecification::runtime_only(CostFunctions::Constant(1)),
            ClarityCostFunction::IsSome => SimpleCostSpecification::runtime_only(CostFunctions::Constant(1)),
            ClarityCostFunction::Unwrap => SimpleCostSpecification::runtime_only(CostFunctions::Constant(1)),
            ClarityCostFunction::UnwrapErr => SimpleCostSpecification::runtime_only(CostFunctions::Constant(1)),
            ClarityCostFunction::TryRet => SimpleCostSpecification::runtime_only(CostFunctions::Constant(1)),
            ClarityCostFunction::Match => SimpleCostSpecification::runtime_only(CostFunctions::Constant(1)),
            ClarityCostFunction::Or => SimpleCostSpecification::runtime_only(CostFunctions::Linear(1, 1)),
            ClarityCostFunction::And => SimpleCostSpecification::runtime_only(CostFunctions::Linear(1, 1)),
            ClarityCostFunction::Append => SimpleCostSpecification::runtime_only(CostFunctions::Linear(1, 1)),
            ClarityCostFunction::Concat => SimpleCostSpecification::runtime_only(CostFunctions::Linear(1, 1)),
            ClarityCostFunction::AsMaxLen => SimpleCostSpecification::runtime_only(CostFunctions::Constant(1)),
            ClarityCostFunction::ContractCall => SimpleCostSpecification::runtime_only(CostFunctions::Constant(1)),
            ClarityCostFunction::ContractOf => SimpleCostSpecification::runtime_only(CostFunctions::Constant(1)),
            ClarityCostFunction::PrincipalOf => SimpleCostSpecification::runtime_only(CostFunctions::Constant(1)),
            ClarityCostFunction::AtBlock => SimpleCostSpecification {
                write_length: CostFunctions::Constant(0),
                write_count: CostFunctions::Constant(0),
                read_count: CostFunctions::Constant(1),
                read_length: CostFunctions::Constant(1),
                runtime: CostFunctions::Constant(1),
            },
            ClarityCostFunction::LoadContract => SimpleCostSpecification {
                write_length: CostFunctions::Constant(0),
                write_count: CostFunctions::Constant(0),
                read_count: CostFunctions::Constant(1),
                read_length: CostFunctions::Linear(1, 1),
                runtime: CostFunctions::Linear(1, 1),
            },
            ClarityCostFunction::CreateMap => SimpleCostSpecification {
                write_length: CostFunctions::Linear(1, 1),
                write_count: CostFunctions::Constant(1),
                read_count: CostFunctions::Constant(0),
                read_length: CostFunctions::Constant(0),
                runtime: CostFunctions::Linear(1, 1),
            },
            ClarityCostFunction::CreateVar => SimpleCostSpecification {
                write_length: CostFunctions::Linear(1, 1),
                write_count: CostFunctions::Constant(2),
                read_count: CostFunctions::Constant(0),
                read_length: CostFunctions::Constant(0),
                runtime: CostFunctions::Linear(1, 1),
            },
            ClarityCostFunction::CreateNft => SimpleCostSpecification {
                write_length: CostFunctions::Linear(1, 1),
                write_count: CostFunctions::Constant(1),
                read_count: CostFunctions::Constant(0),
                read_length: CostFunctions::Constant(0),
                runtime: CostFunctions::Linear(1, 1),
            },
            ClarityCostFunction::CreateFt => SimpleCostSpecification {
                write_length: CostFunctions::Constant(1),
                write_count: CostFunctions::Constant(2),
                read_count: CostFunctions::Constant(0),
                read_length: CostFunctions::Constant(0),
                runtime: CostFunctions::Constant(1),
            },
            ClarityCostFunction::FetchEntry => SimpleCostSpecification {
                write_length: CostFunctions::Constant(0),
                write_count: CostFunctions::Constant(0),
                read_count: CostFunctions::Constant(1),
                read_length: CostFunctions::Linear(1, 1),
                runtime: CostFunctions::Linear(1, 1),
            },
            ClarityCostFunction::SetEntry => SimpleCostSpecification {
                write_length: CostFunctions::Linear(1, 1),
                write_count: CostFunctions::Constant(1),
                read_count: CostFunctions::Constant(1),
                read_length: CostFunctions::Constant(0),
                runtime: CostFunctions::Linear(1, 1),
            },
            ClarityCostFunction::FetchVar => SimpleCostSpecification {
                write_length: CostFunctions::Constant(0),
                write_count: CostFunctions::Constant(0),
                read_count: CostFunctions::Constant(1),
                read_length: CostFunctions::Linear(1, 1),
                runtime: CostFunctions::Linear(1, 1),
            },
            ClarityCostFunction::SetVar => SimpleCostSpecification {
                write_length: CostFunctions::Linear(1, 1),
                write_count: CostFunctions::Constant(1),
                read_count: CostFunctions::Constant(1),
                read_length: CostFunctions::Constant(0),
                runtime: CostFunctions::Linear(1, 1),
            },
            ClarityCostFunction::ContractStorage => SimpleCostSpecification {
                write_length: CostFunctions::Linear(1, 1),
                write_count: CostFunctions::Constant(1),
                read_count: CostFunctions::Constant(0),
                read_length: CostFunctions::Constant(0),
                runtime: CostFunctions::Linear(1, 1),
            },
            ClarityCostFunction::BlockInfo => SimpleCostSpecification {
                write_length: CostFunctions::Constant(0),
                write_count: CostFunctions::Constant(0),
                read_count: CostFunctions::Constant(1),
                read_length: CostFunctions::Constant(1),
                runtime: CostFunctions::Constant(1),
            },
            ClarityCostFunction::StxBalance => SimpleCostSpecification {
                write_length: CostFunctions::Constant(0),
                write_count: CostFunctions::Constant(0),
                read_count: CostFunctions::Constant(1),
                read_length: CostFunctions::Constant(1),
                runtime: CostFunctions::Constant(1),
            },
            ClarityCostFunction::StxTransfer => SimpleCostSpecification {
                write_length: CostFunctions::Constant(1),
                write_count: CostFunctions::Constant(1),
                read_count: CostFunctions::Constant(1),
                read_length: CostFunctions::Constant(1),
                runtime: CostFunctions::Constant(1),
            },
            ClarityCostFunction::FtMint => SimpleCostSpecification {
                write_length: CostFunctions::Constant(1),
                write_count: CostFunctions::Constant(2),
                read_count: CostFunctions::Constant(2),
                read_length: CostFunctions::Constant(1),
                runtime: CostFunctions::Constant(1),
            },
            ClarityCostFunction::FtTransfer => SimpleCostSpecification {
                write_length: CostFunctions::Constant(1),
                write_count: CostFunctions::Constant(2),
                read_count: CostFunctions::Constant(2),
                read_length: CostFunctions::Constant(1),
                runtime: CostFunctions::Constant(1),
            },
            ClarityCostFunction::FtBalance => SimpleCostSpecification {
                write_length: CostFunctions::Constant(0),
                write_count: CostFunctions::Constant(0),
                read_count: CostFunctions::Constant(1),
                read_length: CostFunctions::Constant(1),
                runtime: CostFunctions::Constant(1),
            },
            ClarityCostFunction::NftMint => SimpleCostSpecification {
                write_length: CostFunctions::Constant(1),
                write_count: CostFunctions::Constant(1),
                read_count: CostFunctions::Constant(1),
                read_length: CostFunctions::Constant(1),
                runtime: CostFunctions::Linear(1, 1),
            },
            ClarityCostFunction::NftTransfer => SimpleCostSpecification {
                write_length: CostFunctions::Constant(1),
                write_count: CostFunctions::Constant(1),
                read_count: CostFunctions::Constant(1),
                read_length: CostFunctions::Constant(1),
                runtime: CostFunctions::Linear(1, 1),
            },
            ClarityCostFunction::NftOwner => SimpleCostSpecification {
                write_length: CostFunctions::Constant(0),
                write_count: CostFunctions::Constant(0),
                read_count: CostFunctions::Constant(1),
                read_length: CostFunctions::Constant(1),
                runtime: CostFunctions::Linear(1, 1),
            },
        }
    }
}

/// Positions in declaration order identify the cost functions one to one.
pub proof fn lemma_index_round_trip(f: ClarityCostFunction)
    ensures
        f.spec_index() < COST_FUNCTION_COUNT,
        ClarityCostFunction::spec_from_index(f.spec_index()) == Some(f),
{
}

impl ClarityCostFunction {
    /// Every cost function, in declaration order.
    pub fn all() -> (r: Vec<ClarityCostFunction>)
        ensures
            r@.len() == COST_FUNCTION_COUNT,
            forall|i: int| 0 <= i < r@.len() ==> (#[trigger] r@[i]).spec_index() == i,
    {
        let mut r: Vec<ClarityCostFunction> = Vec::new();
        let mut i: usize = 0;
        while i < COST_FUNCTION_COUNT
            invariant
                i <= COST_FUNCTION_COUNT,
                r@.len() == i,
                forall|j: int| 0 <= j < i ==> (#[trigger] r@[j]).spec_index() == j,
            decreases COST_FUNCTION_COUNT - i,
        {
            match ClarityCostFunction::from_index(i) {
                Some(f) => {
                    proof {
                        lemma_index_round_trip(f);
                    }
                    r.push(f);
                },
                None => {},
            }
            i = i + 1;
        }
        r
    }

    /// The cost function whose canonical name is `name`, if any.
    pub fn lookup_by_name(name: &str) -> (r: Option<ClarityCostFunction>)
        ensures
            r matches Some(f) ==> f.spec_name() == name@,
            r is None ==> forall|f: ClarityCostFunction| #[trigger] f.spec_name() != name@,
    {
        let wanted = String::from_str(name);
        let mut i: usize = 0;
        while i < COST_FUNCTION_COUNT
            invariant
                i <= COST_FUNCTION_COUNT,
                wanted@ == name@,
                forall|f: ClarityCostFunction|
                    #[trigger] f.spec_index() < i ==> f.spec_name() != name@,
            decreases COST_FUNCTION_COUNT - i,
        {
            match ClarityCostFunction::from_index(i) {
                Some(f) => {
                    if f.get_name() == wanted {
                        return Some(f);
                    }
                    proof {
                        assert forall|g: ClarityCostFunction|
                            #[trigger] g.spec_index() < i + 1 implies g.spec_name() != name@ by {
                            lemma_index_round_trip(g);
                            lemma_index_round_trip(f);
                        }
                    }
                },
                None => {},
            }
            i = i + 1;
        }
        proof {
            assert forall|f: ClarityCostFunction| #[trigger] f.spec_name() != name@ by {
                lemma_index_round_trip(f);
                assert(f.spec_index() < i);
            }
        }
        None
    }
}

} // verus!

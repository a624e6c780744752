//! The legal configurations: one implementation of `ConfigBase` per kind and capacity.
use crate::{
    Config, ConfigBase, Fixed, Slim, SlimConfig, StringletBase, Trim, TrimConfig, Var, VarConfig,
};
use vstd::prelude::*;

verus! {

impl ConfigBase<Fixed, 0, 0> for StringletBase<Fixed, 0, 0> { proof fn lemma_legal() {} }
impl ConfigBase<Fixed, 1, 0> for StringletBase<Fixed, 1, 0> { proof fn lemma_legal() {} }
impl ConfigBase<Fixed, 2, 0> for StringletBase<Fixed, 2, 0> { proof fn lemma_legal() {} }
impl ConfigBase<Fixed, 3, 0> for StringletBase<Fixed, 3, 0> { proof fn lemma_legal() {} }
impl ConfigBase<Fixed, 4, 0> for StringletBase<Fixed, 4, 0> { proof fn lemma_legal() {} }
impl ConfigBase<Fixed, 5, 0> for StringletBase<Fixed, 5, 0> { proof fn lemma_legal() {} }
impl ConfigBase<Fixed, 6, 0> for StringletBase<Fixed, 6, 0> { proof fn lemma_legal() {} }
impl ConfigBase<Fixed, 7, 0> for StringletBase<Fixed, 7, 0> { proof fn lemma_legal() {} }
impl ConfigBase<Fixed, 8, 0> for StringletBase<Fixed, 8, 0> { proof fn lemma_legal() {} }
impl ConfigBase<Fixed, 9, 0> for StringletBase<Fixed, 9, 0> { proof fn lemma_legal() {} }
impl ConfigBase<Fixed, 10, 0> for StringletBase<Fixed, 10, 0> { proof fn lemma_legal() {} }
impl ConfigBase<Fixed, 11, 0> for StringletBase<Fixed, 11, 0> { proof fn lemma_legal() {} }
impl ConfigBase<Fixed, 12, 0> for StringletBase<Fixed, 12, 0> { proof fn lemma_legal() {} }
impl ConfigBase<Fixed, 13, 0> for StringletBase<Fixed, 13, 0> { proof fn lemma_legal() {} }
impl ConfigBase<Fixed, 14, 0> for StringletBase<Fixed, 14, 0> { proof fn lemma_legal() {} }
impl ConfigBase<Fixed, 15, 0> for StringletBase<Fixed, 15, 0> { proof fn lemma_legal() {} }
impl ConfigBase<Fixed, 16, 0> for StringletBase<Fixed, 16, 0> { proof fn lemma_legal() {} }
impl ConfigBase<Fixed, 17, 0> for StringletBase<Fixed, 17, 0> { proof fn lemma_legal() {} }
impl ConfigBase<Fixed, 18, 0> for StringletBase<Fixed, 18, 0> { proof fn lemma_legal() {} }
impl ConfigBase<Fixed, 19, 0> for StringletBase<Fixed, 19, 0> { proof fn lemma_legal() {} }
impl ConfigBase<Fixed, 20, 0> for StringletBase<Fixed, 20, 0> { proof fn lemma_legal() {} }
impl ConfigBase<Fixed, 21, 0> for StringletBase<Fixed, 21, 0> { proof fn lemma_legal() {} }
impl ConfigBase<Fixed, 22, 0> for StringletBase<Fixed, 22, 0> { proof fn lemma_legal() {} }
impl ConfigBase<Fixed, 23, 0> for StringletBase<Fixed, 23, 0> { proof fn lemma_legal() {} }
impl ConfigBase<Fixed, 24, 0> for StringletBase<Fixed, 24, 0> { proof fn lemma_legal() {} }
impl ConfigBase<Fixed, 25, 0> for StringletBase<Fixed, 25, 0> { proof fn lemma_legal() {} }
impl ConfigBase<Fixed, 26, 0> for StringletBase<Fixed, 26, 0> { proof fn lemma_legal() {} }
impl ConfigBase<Fixed, 27, 0> for StringletBase<Fixed, 27, 0> { proof fn lemma_legal() {} }
impl ConfigBase<Fixed, 28, 0> for StringletBase<Fixed, 28, 0> { proof fn lemma_legal() {} }
impl ConfigBase<Fixed, 29, 0> for StringletBase<Fixed, 29, 0> { proof fn lemma_legal() {} }
impl ConfigBase<Fixed, 30, 0> for StringletBase<Fixed, 30, 0> { proof fn lemma_legal() {} }
impl ConfigBase<Fixed, 31, 0> for StringletBase<Fixed, 31, 0> { proof fn lemma_legal() {} }
impl ConfigBase<Fixed, 32, 0> for StringletBase<Fixed, 32, 0> { proof fn lemma_legal() {} }
impl ConfigBase<Fixed, 33, 0> for StringletBase<Fixed, 33, 0> { proof fn lemma_legal() {} }
impl ConfigBase<Fixed, 34, 0> for StringletBase<Fixed, 34, 0> { proof fn lemma_legal() {} }
impl ConfigBase<Fixed, 35, 0> for StringletBase<Fixed, 35, 0> { proof fn lemma_legal() {} }
impl ConfigBase<Fixed, 36, 0> for StringletBase<Fixed, 36, 0> { proof fn lemma_legal() {} }
impl ConfigBase<Fixed, 37, 0> for StringletBase<Fixed, 37, 0> { proof fn lemma_legal() {} }
impl ConfigBase<Fixed, 38, 0> for StringletBase<Fixed, 38, 0> { proof fn lemma_legal() {} }
impl ConfigBase<Fixed, 39, 0> for StringletBase<Fixed, 39, 0> { proof fn lemma_legal() {} }
impl ConfigBase<Fixed, 40, 0> for StringletBase<Fixed, 40, 0> { proof fn lemma_legal() {} }
impl ConfigBase<Fixed, 41, 0> for StringletBase<Fixed, 41, 0> { proof fn lemma_legal() {} }
impl ConfigBase<Fixed, 42, 0> for StringletBase<Fixed, 42, 0> { proof fn lemma_legal() {} }
impl ConfigBase<Fixed, 43, 0> for StringletBase<Fixed, 43, 0> { proof fn lemma_legal() {} }
impl ConfigBase<Fixed, 44, 0> for StringletBase<Fixed, 44, 0> { proof fn lemma_legal() {} }
impl ConfigBase<Fixed, 45, 0> for StringletBase<Fixed, 45, 0> { proof fn lemma_legal() {} }
impl ConfigBase<Fixed, 46, 0> for StringletBase<Fixed, 46, 0> { proof fn lemma_legal() {} }
impl ConfigBase<Fixed, 47, 0> for StringletBase<Fixed, 47, 0> { proof fn lemma_legal() {} }
impl ConfigBase<Fixed, 48, 0> for StringletBase<Fixed, 48, 0> { proof fn lemma_legal() {} }
impl ConfigBase<Fixed, 49, 0> for StringletBase<Fixed, 49, 0> { proof fn lemma_legal() {} }
impl ConfigBase<Fixed, 50, 0> for StringletBase<Fixed, 50, 0> { proof fn lemma_legal() {} }
impl ConfigBase<Fixed, 51, 0> for StringletBase<Fixed, 51, 0> { proof fn lemma_legal() {} }
impl ConfigBase<Fixed, 52, 0> for StringletBase<Fixed, 52, 0> { proof fn lemma_legal() {} }
impl ConfigBase<Fixed, 53, 0> for StringletBase<Fixed, 53, 0> { proof fn lemma_legal() {} }
impl ConfigBase<Fixed, 54, 0> for StringletBase<Fixed, 54, 0> { proof fn lemma_legal() {} }
impl ConfigBase<Fixed, 55, 0> for StringletBase<Fixed, 55, 0> { proof fn lemma_legal() {} }
impl ConfigBase<Fixed, 56, 0> for StringletBase<Fixed, 56, 0> { proof fn lemma_legal() {} }
impl ConfigBase<Fixed, 57, 0> for StringletBase<Fixed, 57, 0> { proof fn lemma_legal() {} }
impl ConfigBase<Fixed, 58, 0> for StringletBase<Fixed, 58, 0> { proof fn lemma_legal() {} }
impl ConfigBase<Fixed, 59, 0> for StringletBase<Fixed, 59, 0> { proof fn lemma_legal() {} }
impl ConfigBase<Fixed, 60, 0> for StringletBase<Fixed, 60, 0> { proof fn lemma_legal() {} }
impl ConfigBase<Fixed, 61, 0> for StringletBase<Fixed, 61, 0> { proof fn lemma_legal() {} }
impl ConfigBase<Fixed, 62, 0> for StringletBase<Fixed, 62, 0> { proof fn lemma_legal() {} }
impl ConfigBase<Fixed, 63, 0> for StringletBase<Fixed, 63, 0> { proof fn lemma_legal() {} }
impl ConfigBase<Fixed, 64, 0> for StringletBase<Fixed, 64, 0> { proof fn lemma_legal() {} }

impl ConfigBase<Var, 0, 1> for StringletBase<Var, 0, 1> { proof fn lemma_legal() {} }
impl ConfigBase<Var, 1, 1> for StringletBase<Var, 1, 1> { proof fn lemma_legal() {} }
impl ConfigBase<Var, 2, 1> for StringletBase<Var, 2, 1> { proof fn lemma_legal() {} }
impl ConfigBase<Var, 3, 1> for StringletBase<Var, 3, 1> { proof fn lemma_legal() {} }
impl ConfigBase<Var, 4, 1> for StringletBase<Var, 4, 1> { proof fn lemma_legal() {} }
impl ConfigBase<Var, 5, 1> for StringletBase<Var, 5, 1> { proof fn lemma_legal() {} }
impl ConfigBase<Var, 6, 1> for StringletBase<Var, 6, 1> { proof fn lemma_legal() {} }
impl ConfigBase<Var, 7, 1> for StringletBase<Var, 7, 1> { proof fn lemma_legal() {} }
impl ConfigBase<Var, 8, 1> for StringletBase<Var, 8, 1> { proof fn lemma_legal() {} }
impl ConfigBase<Var, 9, 1> for StringletBase<Var, 9, 1> { proof fn lemma_legal() {} }
impl ConfigBase<Var, 10, 1> for StringletBase<Var, 10, 1> { proof fn lemma_legal() {} }
impl ConfigBase<Var, 11, 1> for StringletBase<Var, 11, 1> { proof fn lemma_legal() {} }
impl ConfigBase<Var, 12, 1> for StringletBase<Var, 12, 1> { proof fn lemma_legal() {} }
impl ConfigBase<Var, 13, 1> for StringletBase<Var, 13, 1> { proof fn lemma_legal() {} }
impl ConfigBase<Var, 14, 1> for StringletBase<Var, 14, 1> { proof fn lemma_legal() {} }
impl ConfigBase<Var, 15, 1> for StringletBase<Var, 15, 1> { proof fn lemma_legal() {} }
impl ConfigBase<Var, 16, 1> for StringletBase<Var, 16, 1> { proof fn lemma_legal() {} }
impl ConfigBase<Var, 17, 1> for StringletBase<Var, 17, 1> { proof fn lemma_legal() {} }
impl ConfigBase<Var, 18, 1> for StringletBase<Var, 18, 1> { proof fn lemma_legal() {} }
impl ConfigBase<Var, 19, 1> for StringletBase<Var, 19, 1> { proof fn lemma_legal() {} }
impl ConfigBase<Var, 20, 1> for StringletBase<Var, 20, 1> { proof fn lemma_legal() {} }
impl ConfigBase<Var, 21, 1> for StringletBase<Var, 21, 1> { proof fn lemma_legal() {} }
impl ConfigBase<Var, 22, 1> for StringletBase<Var, 22, 1> { proof fn lemma_legal() {} }
impl ConfigBase<Var, 23, 1> for StringletBase<Var, 23, 1> { proof fn lemma_legal() {} }
impl ConfigBase<Var, 24, 1> for StringletBase<Var, 24, 1> { proof fn lemma_legal() {} }
impl ConfigBase<Var, 25, 1> for StringletBase<Var, 25, 1> { proof fn lemma_legal() {} }
impl ConfigBase<Var, 26, 1> for StringletBase<Var, 26, 1> { proof fn lemma_legal() {} }
impl ConfigBase<Var, 27, 1> for StringletBase<Var, 27, 1> { proof fn lemma_legal() {} }
impl ConfigBase<Var, 28, 1> for StringletBase<Var, 28, 1> { proof fn lemma_legal() {} }
impl ConfigBase<Var, 29, 1> for StringletBase<Var, 29, 1> { proof fn lemma_legal() {} }
impl ConfigBase<Var, 30, 1> for StringletBase<Var, 30, 1> { proof fn lemma_legal() {} }
impl ConfigBase<Var, 31, 1> for StringletBase<Var, 31, 1> { proof fn lemma_legal() {} }
impl ConfigBase<Var, 32, 1> for StringletBase<Var, 32, 1> { proof fn lemma_legal() {} }
impl ConfigBase<Var, 33, 1> for StringletBase<Var, 33, 1> { proof fn lemma_legal() {} }
impl ConfigBase<Var, 34, 1> for StringletBase<Var, 34, 1> { proof fn lemma_legal() {} }
impl ConfigBase<Var, 35, 1> for StringletBase<Var, 35, 1> { proof fn lemma_legal() {} }
impl ConfigBase<Var, 36, 1> for StringletBase<Var, 36, 1> { proof fn lemma_legal() {} }
impl ConfigBase<Var, 37, 1> for StringletBase<Var, 37, 1> { proof fn lemma_legal() {} }
impl ConfigBase<Var, 38, 1> for StringletBase<Var, 38, 1> { proof fn lemma_legal() {} }
impl ConfigBase<Var, 39, 1> for StringletBase<Var, 39, 1> { proof fn lemma_legal() {} }
impl ConfigBase<Var, 40, 1> for StringletBase<Var, 40, 1> { proof fn lemma_legal() {} }
impl ConfigBase<Var, 41, 1> for StringletBase<Var, 41, 1> { proof fn lemma_legal() {} }
impl ConfigBase<Var, 42, 1> for StringletBase<Var, 42, 1> { proof fn lemma_legal() {} }
impl ConfigBase<Var, 43, 1> for StringletBase<Var, 43, 1> { proof fn lemma_legal() {} }
impl ConfigBase<Var, 44, 1> for StringletBase<Var, 44, 1> { proof fn lemma_legal() {} }
impl ConfigBase<Var, 45, 1> for StringletBase<Var, 45, 1> { proof fn lemma_legal() {} }
impl ConfigBase<Var, 46, 1> for StringletBase<Var, 46, 1> { proof fn lemma_legal() {} }
impl ConfigBase<Var, 47, 1> for StringletBase<Var, 47, 1> { proof fn lemma_legal() {} }
impl ConfigBase<Var, 48, 1> for StringletBase<Var, 48, 1> { proof fn lemma_legal() {} }
impl ConfigBase<Var, 49, 1> for StringletBase<Var, 49, 1> { proof fn lemma_legal() {} }
impl ConfigBase<Var, 50, 1> for StringletBase<Var, 50, 1> { proof fn lemma_legal() {} }
impl ConfigBase<Var, 51, 1> for StringletBase<Var, 51, 1> { proof fn lemma_legal() {} }
impl ConfigBase<Var, 52, 1> for StringletBase<Var, 52, 1> { proof fn lemma_legal() {} }
impl ConfigBase<Var, 53, 1> for StringletBase<Var, 53, 1> { proof fn lemma_legal() {} }
impl ConfigBase<Var, 54, 1> for StringletBase<Var, 54, 1> { proof fn lemma_legal() {} }
impl ConfigBase<Var, 55, 1> for StringletBase<Var, 55, 1> { proof fn lemma_legal() {} }
impl ConfigBase<Var, 56, 1> for StringletBase<Var, 56, 1> { proof fn lemma_legal() {} }
impl ConfigBase<Var, 57, 1> for StringletBase<Var, 57, 1> { proof fn lemma_legal() {} }
impl ConfigBase<Var, 58, 1> for StringletBase<Var, 58, 1> { proof fn lemma_legal() {} }
impl ConfigBase<Var, 59, 1> for StringletBase<Var, 59, 1> { proof fn lemma_legal() {} }
impl ConfigBase<Var, 60, 1> for StringletBase<Var, 60, 1> { proof fn lemma_legal() {} }
impl ConfigBase<Var, 61, 1> for StringletBase<Var, 61, 1> { proof fn lemma_legal() {} }
impl ConfigBase<Var, 62, 1> for StringletBase<Var, 62, 1> { proof fn lemma_legal() {} }
impl ConfigBase<Var, 63, 1> for StringletBase<Var, 63, 1> { proof fn lemma_legal() {} }
impl ConfigBase<Var, 64, 1> for StringletBase<Var, 64, 1> { proof fn lemma_legal() {} }
impl ConfigBase<Var, 65, 1> for StringletBase<Var, 65, 1> { proof fn lemma_legal() {} }
impl ConfigBase<Var, 66, 1> for StringletBase<Var, 66, 1> { proof fn lemma_legal() {} }
impl ConfigBase<Var, 67, 1> for StringletBase<Var, 67, 1> { proof fn lemma_legal() {} }
impl ConfigBase<Var, 68, 1> for StringletBase<Var, 68, 1> { proof fn lemma_legal() {} }
impl ConfigBase<Var, 69, 1> for StringletBase<Var, 69, 1> { proof fn lemma_legal() {} }
impl ConfigBase<Var, 70, 1> for StringletBase<Var, 70, 1> { proof fn lemma_legal() {} }
impl ConfigBase<Var, 71, 1> for StringletBase<Var, 71, 1> { proof fn lemma_legal() {} }
impl ConfigBase<Var, 72, 1> for StringletBase<Var, 72, 1> { proof fn lemma_legal() {} }
impl ConfigBase<Var, 73, 1> for StringletBase<Var, 73, 1> { proof fn lemma_legal() {} }
impl ConfigBase<Var, 74, 1> for StringletBase<Var, 74, 1> { proof fn lemma_legal() {} }
impl ConfigBase<Var, 75, 1> for StringletBase<Var, 75, 1> { proof fn lemma_legal() {} }
impl ConfigBase<Var, 76, 1> for StringletBase<Var, 76, 1> { proof fn lemma_legal() {} }
impl ConfigBase<Var, 77, 1> for StringletBase<Var, 77, 1> { proof fn lemma_legal() {} }
impl ConfigBase<Var, 78, 1> for StringletBase<Var, 78, 1> { proof fn lemma_legal() {} }
impl ConfigBase<Var, 79, 1> for StringletBase<Var, 79, 1> { proof fn lemma_legal() {} }
impl ConfigBase<Var, 80, 1> for StringletBase<Var, 80, 1> { proof fn lemma_legal() {} }
impl ConfigBase<Var, 81, 1> for StringletBase<Var, 81, 1> { proof fn lemma_legal() {} }
impl ConfigBase<Var, 82, 1> for StringletBase<Var, 82, 1> { proof fn lemma_legal() {} }
impl ConfigBase<Var, 83, 1> for StringletBase<Var, 83, 1> { proof fn lemma_legal() {} }
impl ConfigBase<Var, 84, 1> for StringletBase<Var, 84, 1> { proof fn lemma_legal() {} }
impl ConfigBase<Var, 85, 1> for StringletBase<Var, 85, 1> { proof fn lemma_legal() {} }
impl ConfigBase<Var, 86, 1> for StringletBase<Var, 86, 1> { proof fn lemma_legal() {} }
impl ConfigBase<Var, 87, 1> for StringletBase<Var, 87, 1> { proof fn lemma_legal() {} }
impl ConfigBase<Var, 88, 1> for StringletBase<Var, 88, 1> { proof fn lemma_legal() {} }
impl ConfigBase<Var, 89, 1> for StringletBase<Var, 89, 1> { proof fn lemma_legal() {} }
impl ConfigBase<Var, 90, 1> for StringletBase<Var, 90, 1> { proof fn lemma_legal() {} }
impl ConfigBase<Var, 91, 1> for StringletBase<Var, 91, 1> { proof fn lemma_legal() {} }
impl ConfigBase<Var, 92, 1> for StringletBase<Var, 92, 1> { proof fn lemma_legal() {} }
impl ConfigBase<Var, 93, 1> for StringletBase<Var, 93, 1> { proof fn lemma_legal() {} }
impl ConfigBase<Var, 94, 1> for StringletBase<Var, 94, 1> { proof fn lemma_legal() {} }
impl ConfigBase<Var, 95, 1> for StringletBase<Var, 95, 1> { proof fn lemma_legal() {} }
impl ConfigBase<Var, 96, 1> for StringletBase<Var, 96, 1> { proof fn lemma_legal() {} }
impl ConfigBase<Var, 97, 1> for StringletBase<Var, 97, 1> { proof fn lemma_legal() {} }
impl ConfigBase<Var, 98, 1> for StringletBase<Var, 98, 1> { proof fn lemma_legal() {} }
impl ConfigBase<Var, 99, 1> for StringletBase<Var, 99, 1> { proof fn lemma_legal() {} }
impl ConfigBase<Var, 100, 1> for StringletBase<Var, 100, 1> { proof fn lemma_legal() {} }
impl ConfigBase<Var, 101, 1> for StringletBase<Var, 101, 1> { proof fn lemma_legal() {} }
impl ConfigBase<Var, 102, 1> for StringletBase<Var, 102, 1> { proof fn lemma_legal() {} }
impl ConfigBase<Var, 103, 1> for StringletBase<Var, 103, 1> { proof fn lemma_legal() {} }
impl ConfigBase<Var, 104, 1> for StringletBase<Var, 104, 1> { proof fn lemma_legal() {} }
impl ConfigBase<Var, 105, 1> for StringletBase<Var, 105, 1> { proof fn lemma_legal() {} }
impl ConfigBase<Var, 106, 1> for StringletBase<Var, 106, 1> { proof fn lemma_legal() {} }
impl ConfigBase<Var, 107, 1> for StringletBase<Var, 107, 1> { proof fn lemma_legal() {} }
impl ConfigBase<Var, 108, 1> for StringletBase<Var, 108, 1> { proof fn lemma_legal() {} }
impl ConfigBase<Var, 109, 1> for StringletBase<Var, 109, 1> { proof fn lemma_legal() {} }
impl ConfigBase<Var, 110, 1> for StringletBase<Var, 110, 1> { proof fn lemma_legal() {} }
impl ConfigBase<Var, 111, 1> for StringletBase<Var, 111, 1> { proof fn lemma_legal() {} }
impl ConfigBase<Var, 112, 1> for StringletBase<Var, 112, 1> { proof fn lemma_legal() {} }
impl ConfigBase<Var, 113, 1> for StringletBase<Var, 113, 1> { proof fn lemma_legal() {} }
impl ConfigBase<Var, 114, 1> for StringletBase<Var, 114, 1> { proof fn lemma_legal() {} }
impl ConfigBase<Var, 115, 1> for StringletBase<Var, 115, 1> { proof fn lemma_legal() {} }
impl ConfigBase<Var, 116, 1> for StringletBase<Var, 116, 1> { proof fn lemma_legal() {} }
impl ConfigBase<Var, 117, 1> for StringletBase<Var, 117, 1> { proof fn lemma_legal() {} }
impl ConfigBase<Var, 118, 1> for StringletBase<Var, 118, 1> { proof fn lemma_legal() {} }
impl ConfigBase<Var, 119, 1> for StringletBase<Var, 119, 1> { proof fn lemma_legal() {} }
impl ConfigBase<Var, 120, 1> for StringletBase<Var, 120, 1> { proof fn lemma_legal() {} }
impl ConfigBase<Var, 121, 1> for StringletBase<Var, 121, 1> { proof fn lemma_legal() {} }
impl ConfigBase<Var, 122, 1> for StringletBase<Var, 122, 1> { proof fn lemma_legal() {} }
impl ConfigBase<Var, 123, 1> for StringletBase<Var, 123, 1> { proof fn lemma_legal() {} }
impl ConfigBase<Var, 124, 1> for StringletBase<Var, 124, 1> { proof fn lemma_legal() {} }
impl ConfigBase<Var, 125, 1> for StringletBase<Var, 125, 1> { proof fn lemma_legal() {} }
impl ConfigBase<Var, 126, 1> for StringletBase<Var, 126, 1> { proof fn lemma_legal() {} }
impl ConfigBase<Var, 127, 1> for StringletBase<Var, 127, 1> { proof fn lemma_legal() {} }
impl ConfigBase<Var, 128, 1> for StringletBase<Var, 128, 1> { proof fn lemma_legal() {} }
impl ConfigBase<Var, 129, 1> for StringletBase<Var, 129, 1> { proof fn lemma_legal() {} }
impl ConfigBase<Var, 130, 1> for StringletBase<Var, 130, 1> { proof fn lemma_legal() {} }
impl ConfigBase<Var, 131, 1> for StringletBase<Var, 131, 1> { proof fn lemma_legal() {} }
impl ConfigBase<Var, 132, 1> for StringletBase<Var, 132, 1> { proof fn lemma_legal() {} }
impl ConfigBase<Var, 133, 1> for StringletBase<Var, 133, 1> { proof fn lemma_legal() {} }
impl ConfigBase<Var, 134, 1> for StringletBase<Var, 134, 1> { proof fn lemma_legal() {} }
impl ConfigBase<Var, 135, 1> for StringletBase<Var, 135, 1> { proof fn lemma_legal() {} }
impl ConfigBase<Var, 136, 1> for StringletBase<Var, 136, 1> { proof fn lemma_legal() {} }
impl ConfigBase<Var, 137, 1> for StringletBase<Var, 137, 1> { proof fn lemma_legal() {} }
impl ConfigBase<Var, 138, 1> for StringletBase<Var, 138, 1> { proof fn lemma_legal() {} }
impl ConfigBase<Var, 139, 1> for StringletBase<Var, 139, 1> { proof fn lemma_legal() {} }
impl ConfigBase<Var, 140, 1> for StringletBase<Var, 140, 1> { proof fn lemma_legal() {} }
impl ConfigBase<Var, 141, 1> for StringletBase<Var, 141, 1> { proof fn lemma_legal() {} }
impl ConfigBase<Var, 142, 1> for StringletBase<Var, 142, 1> { proof fn lemma_legal() {} }
impl ConfigBase<Var, 143, 1> for StringletBase<Var, 143, 1> { proof fn lemma_legal() {} }
impl ConfigBase<Var, 144, 1> for StringletBase<Var, 144, 1> { proof fn lemma_legal() {} }
impl ConfigBase<Var, 145, 1> for StringletBase<Var, 145, 1> { proof fn lemma_legal() {} }
impl ConfigBase<Var, 146, 1> for StringletBase<Var, 146, 1> { proof fn lemma_legal() {} }
impl ConfigBase<Var, 147, 1> for StringletBase<Var, 147, 1> { proof fn lemma_legal() {} }
impl ConfigBase<Var, 148, 1> for StringletBase<Var, 148, 1> { proof fn lemma_legal() {} }
impl ConfigBase<Var, 149, 1> for StringletBase<Var, 149, 1> { proof fn lemma_legal() {} }
impl ConfigBase<Var, 150, 1> for StringletBase<Var, 150, 1> { proof fn lemma_legal() {} }
impl ConfigBase<Var, 151, 1> for StringletBase<Var, 151, 1> { proof fn lemma_legal() {} }
impl ConfigBase<Var, 152, 1> for StringletBase<Var, 152, 1> { proof fn lemma_legal() {} }
impl ConfigBase<Var, 153, 1> for StringletBase<Var, 153, 1> { proof fn lemma_legal() {} }
impl ConfigBase<Var, 154, 1> for StringletBase<Var, 154, 1> { proof fn lemma_legal() {} }
impl ConfigBase<Var, 155, 1> for StringletBase<Var, 155, 1> { proof fn lemma_legal() {} }
impl ConfigBase<Var, 156, 1> for StringletBase<Var, 156, 1> { proof fn lemma_legal() {} }
impl ConfigBase<Var, 157, 1> for StringletBase<Var, 157, 1> { proof fn lemma_legal() {} }
impl ConfigBase<Var, 158, 1> for StringletBase<Var, 158, 1> { proof fn lemma_legal() {} }
impl ConfigBase<Var, 159, 1> for StringletBase<Var, 159, 1> { proof fn lemma_legal() {} }
impl ConfigBase<Var, 160, 1> for StringletBase<Var, 160, 1> { proof fn lemma_legal() {} }
impl ConfigBase<Var, 161, 1> for StringletBase<Var, 161, 1> { proof fn lemma_legal() {} }
impl ConfigBase<Var, 162, 1> for StringletBase<Var, 162, 1> { proof fn lemma_legal() {} }
impl ConfigBase<Var, 163, 1> for StringletBase<Var, 163, 1> { proof fn lemma_legal() {} }
impl ConfigBase<Var, 164, 1> for StringletBase<Var, 164, 1> { proof fn lemma_legal() {} }
impl ConfigBase<Var, 165, 1> for StringletBase<Var, 165, 1> { proof fn lemma_legal() {} }
impl ConfigBase<Var, 166, 1> for StringletBase<Var, 166, 1> { proof fn lemma_legal() {} }
impl ConfigBase<Var, 167, 1> for StringletBase<Var, 167, 1> { proof fn lemma_legal() {} }
impl ConfigBase<Var, 168, 1> for StringletBase<Var, 168, 1> { proof fn lemma_legal() {} }
impl ConfigBase<Var, 169, 1> for StringletBase<Var, 169, 1> { proof fn lemma_legal() {} }
impl ConfigBase<Var, 170, 1> for StringletBase<Var, 170, 1> { proof fn lemma_legal() {} }
impl ConfigBase<Var, 171, 1> for StringletBase<Var, 171, 1> { proof fn lemma_legal() {} }
impl ConfigBase<Var, 172, 1> for StringletBase<Var, 172, 1> { proof fn lemma_legal() {} }
impl ConfigBase<Var, 173, 1> for StringletBase<Var, 173, 1> { proof fn lemma_legal() {} }
impl ConfigBase<Var, 174, 1> for StringletBase<Var, 174, 1> { proof fn lemma_legal() {} }
impl ConfigBase<Var, 175, 1> for StringletBase<Var, 175, 1> { proof fn lemma_legal() {} }
impl ConfigBase<Var, 176, 1> for StringletBase<Var, 176, 1> { proof fn lemma_legal() {} }
impl ConfigBase<Var, 177, 1> for StringletBase<Var, 177, 1> { proof fn lemma_legal() {} }
impl ConfigBase<Var, 178, 1> for StringletBase<Var, 178, 1> { proof fn lemma_legal() {} }
impl ConfigBase<Var, 179, 1> for StringletBase<Var, 179, 1> { proof fn lemma_legal() {} }
impl ConfigBase<Var, 180, 1> for StringletBase<Var, 180, 1> { proof fn lemma_legal() {} }
impl ConfigBase<Var, 181, 1> for StringletBase<Var, 181, 1> { proof fn lemma_legal() {} }
impl ConfigBase<Var, 182, 1> for StringletBase<Var, 182, 1> { proof fn lemma_legal() {} }
impl ConfigBase<Var, 183, 1> for StringletBase<Var, 183, 1> { proof fn lemma_legal() {} }
impl ConfigBase<Var, 184, 1> for StringletBase<Var, 184, 1> { proof fn lemma_legal() {} }
impl ConfigBase<Var, 185, 1> for StringletBase<Var, 185, 1> { proof fn lemma_legal() {} }
impl ConfigBase<Var, 186, 1> for StringletBase<Var, 186, 1> { proof fn lemma_legal() {} }
impl ConfigBase<Var, 187, 1> for StringletBase<Var, 187, 1> { proof fn lemma_legal() {} }
impl ConfigBase<Var, 188, 1> for StringletBase<Var, 188, 1> { proof fn lemma_legal() {} }
impl ConfigBase<Var, 189, 1> for StringletBase<Var, 189, 1> { proof fn lemma_legal() {} }
impl ConfigBase<Var, 190, 1> for StringletBase<Var, 190, 1> { proof fn lemma_legal() {} }
impl ConfigBase<Var, 191, 1> for StringletBase<Var, 191, 1> { proof fn lemma_legal() {} }
impl ConfigBase<Var, 192, 1> for StringletBase<Var, 192, 1> { proof fn lemma_legal() {} }
impl ConfigBase<Var, 193, 1> for StringletBase<Var, 193, 1> { proof fn lemma_legal() {} }
impl ConfigBase<Var, 194, 1> for StringletBase<Var, 194, 1> { proof fn lemma_legal() {} }
impl ConfigBase<Var, 195, 1> for StringletBase<Var, 195, 1> { proof fn lemma_legal() {} }
impl ConfigBase<Var, 196, 1> for StringletBase<Var, 196, 1> { proof fn lemma_legal() {} }
impl ConfigBase<Var, 197, 1> for StringletBase<Var, 197, 1> { proof fn lemma_legal() {} }
impl ConfigBase<Var, 198, 1> for StringletBase<Var, 198, 1> { proof fn lemma_legal() {} }
impl ConfigBase<Var, 199, 1> for StringletBase<Var, 199, 1> { proof fn lemma_legal() {} }
impl ConfigBase<Var, 200, 1> for StringletBase<Var, 200, 1> { proof fn lemma_legal() {} }
impl ConfigBase<Var, 201, 1> for StringletBase<Var, 201, 1> { proof fn lemma_legal() {} }
impl ConfigBase<Var, 202, 1> for StringletBase<Var, 202, 1> { proof fn lemma_legal() {} }
impl ConfigBase<Var, 203, 1> for StringletBase<Var, 203, 1> { proof fn lemma_legal() {} }
impl ConfigBase<Var, 204, 1> for StringletBase<Var, 204, 1> { proof fn lemma_legal() {} }
impl ConfigBase<Var, 205, 1> for StringletBase<Var, 205, 1> { proof fn lemma_legal() {} }
impl ConfigBase<Var, 206, 1> for StringletBase<Var, 206, 1> { proof fn lemma_legal() {} }
impl ConfigBase<Var, 207, 1> for StringletBase<Var, 207, 1> { proof fn lemma_legal() {} }
impl ConfigBase<Var, 208, 1> for StringletBase<Var, 208, 1> { proof fn lemma_legal() {} }
impl ConfigBase<Var, 209, 1> for StringletBase<Var, 209, 1> { proof fn lemma_legal() {} }
impl ConfigBase<Var, 210, 1> for StringletBase<Var, 210, 1> { proof fn lemma_legal() {} }
impl ConfigBase<Var, 211, 1> for StringletBase<Var, 211, 1> { proof fn lemma_legal() {} }
impl ConfigBase<Var, 212, 1> for StringletBase<Var, 212, 1> { proof fn lemma_legal() {} }
impl ConfigBase<Var, 213, 1> for StringletBase<Var, 213, 1> { proof fn lemma_legal() {} }
impl ConfigBase<Var, 214, 1> for StringletBase<Var, 214, 1> { proof fn lemma_legal() {} }
impl ConfigBase<Var, 215, 1> for StringletBase<Var, 215, 1> { proof fn lemma_legal() {} }
impl ConfigBase<Var, 216, 1> for StringletBase<Var, 216, 1> { proof fn lemma_legal() {} }
impl ConfigBase<Var, 217, 1> for StringletBase<Var, 217, 1> { proof fn lemma_legal() {} }
impl ConfigBase<Var, 218, 1> for StringletBase<Var, 218, 1> { proof fn lemma_legal() {} }
impl ConfigBase<Var, 219, 1> for StringletBase<Var, 219, 1> { proof fn lemma_legal() {} }
impl ConfigBase<Var, 220, 1> for StringletBase<Var, 220, 1> { proof fn lemma_legal() {} }
impl ConfigBase<Var, 221, 1> for StringletBase<Var, 221, 1> { proof fn lemma_legal() {} }
impl ConfigBase<Var, 222, 1> for StringletBase<Var, 222, 1> { proof fn lemma_legal() {} }
impl ConfigBase<Var, 223, 1> for StringletBase<Var, 223, 1> { proof fn lemma_legal() {} }
impl ConfigBase<Var, 224, 1> for StringletBase<Var, 224, 1> { proof fn lemma_legal() {} }
impl ConfigBase<Var, 225, 1> for StringletBase<Var, 225, 1> { proof fn lemma_legal() {} }
impl ConfigBase<Var, 226, 1> for StringletBase<Var, 226, 1> { proof fn lemma_legal() {} }
impl ConfigBase<Var, 227, 1> for StringletBase<Var, 227, 1> { proof fn lemma_legal() {} }
impl ConfigBase<Var, 228, 1> for StringletBase<Var, 228, 1> { proof fn lemma_legal() {} }
impl ConfigBase<Var, 229, 1> for StringletBase<Var, 229, 1> { proof fn lemma_legal() {} }
impl ConfigBase<Var, 230, 1> for StringletBase<Var, 230, 1> { proof fn lemma_legal() {} }
impl ConfigBase<Var, 231, 1> for StringletBase<Var, 231, 1> { proof fn lemma_legal() {} }
impl ConfigBase<Var, 232, 1> for StringletBase<Var, 232, 1> { proof fn lemma_legal() {} }
impl ConfigBase<Var, 233, 1> for StringletBase<Var, 233, 1> { proof fn lemma_legal() {} }
impl ConfigBase<Var, 234, 1> for StringletBase<Var, 234, 1> { proof fn lemma_legal() {} }
impl ConfigBase<Var, 235, 1> for StringletBase<Var, 235, 1> { proof fn lemma_legal() {} }
impl ConfigBase<Var, 236, 1> for StringletBase<Var, 236, 1> { proof fn lemma_legal() {} }
impl ConfigBase<Var, 237, 1> for StringletBase<Var, 237, 1> { proof fn lemma_legal() {} }
impl ConfigBase<Var, 238, 1> for StringletBase<Var, 238, 1> { proof fn lemma_legal() {} }
impl ConfigBase<Var, 239, 1> for StringletBase<Var, 239, 1> { proof fn lemma_legal() {} }
impl ConfigBase<Var, 240, 1> for StringletBase<Var, 240, 1> { proof fn lemma_legal() {} }
impl ConfigBase<Var, 241, 1> for StringletBase<Var, 241, 1> { proof fn lemma_legal() {} }
impl ConfigBase<Var, 242, 1> for StringletBase<Var, 242, 1> { proof fn lemma_legal() {} }
impl ConfigBase<Var, 243, 1> for StringletBase<Var, 243, 1> { proof fn lemma_legal() {} }
impl ConfigBase<Var, 244, 1> for StringletBase<Var, 244, 1> { proof fn lemma_legal() {} }
impl ConfigBase<Var, 245, 1> for StringletBase<Var, 245, 1> { proof fn lemma_legal() {} }
impl ConfigBase<Var, 246, 1> for StringletBase<Var, 246, 1> { proof fn lemma_legal() {} }
impl ConfigBase<Var, 247, 1> for StringletBase<Var, 247, 1> { proof fn lemma_legal() {} }
impl ConfigBase<Var, 248, 1> for StringletBase<Var, 248, 1> { proof fn lemma_legal() {} }
impl ConfigBase<Var, 249, 1> for StringletBase<Var, 249, 1> { proof fn lemma_legal() {} }
impl ConfigBase<Var, 250, 1> for StringletBase<Var, 250, 1> { proof fn lemma_legal() {} }
impl ConfigBase<Var, 251, 1> for StringletBase<Var, 251, 1> { proof fn lemma_legal() {} }
impl ConfigBase<Var, 252, 1> for StringletBase<Var, 252, 1> { proof fn lemma_legal() {} }
impl ConfigBase<Var, 253, 1> for StringletBase<Var, 253, 1> { proof fn lemma_legal() {} }
impl ConfigBase<Var, 254, 1> for StringletBase<Var, 254, 1> { proof fn lemma_legal() {} }
impl ConfigBase<Var, 255, 1> for StringletBase<Var, 255, 1> { proof fn lemma_legal() {} }

impl ConfigBase<Trim, 0, 0> for StringletBase<Trim, 0, 0> { proof fn lemma_legal() {} }
impl ConfigBase<Trim, 1, 0> for StringletBase<Trim, 1, 0> { proof fn lemma_legal() {} }
impl ConfigBase<Trim, 2, 0> for StringletBase<Trim, 2, 0> { proof fn lemma_legal() {} }
impl ConfigBase<Trim, 3, 0> for StringletBase<Trim, 3, 0> { proof fn lemma_legal() {} }
impl ConfigBase<Trim, 4, 0> for StringletBase<Trim, 4, 0> { proof fn lemma_legal() {} }
impl ConfigBase<Trim, 5, 0> for StringletBase<Trim, 5, 0> { proof fn lemma_legal() {} }
impl ConfigBase<Trim, 6, 0> for StringletBase<Trim, 6, 0> { proof fn lemma_legal() {} }
impl ConfigBase<Trim, 7, 0> for StringletBase<Trim, 7, 0> { proof fn lemma_legal() {} }
impl ConfigBase<Trim, 8, 0> for StringletBase<Trim, 8, 0> { proof fn lemma_legal() {} }
impl ConfigBase<Trim, 9, 0> for StringletBase<Trim, 9, 0> { proof fn lemma_legal() {} }
impl ConfigBase<Trim, 10, 0> for StringletBase<Trim, 10, 0> { proof fn lemma_legal() {} }
impl ConfigBase<Trim, 11, 0> for StringletBase<Trim, 11, 0> { proof fn lemma_legal() {} }
impl ConfigBase<Trim, 12, 0> for StringletBase<Trim, 12, 0> { proof fn lemma_legal() {} }
impl ConfigBase<Trim, 13, 0> for StringletBase<Trim, 13, 0> { proof fn lemma_legal() {} }
impl ConfigBase<Trim, 14, 0> for StringletBase<Trim, 14, 0> { proof fn lemma_legal() {} }
impl ConfigBase<Trim, 15, 0> for StringletBase<Trim, 15, 0> { proof fn lemma_legal() {} }
impl ConfigBase<Trim, 16, 0> for StringletBase<Trim, 16, 0> { proof fn lemma_legal() {} }
impl ConfigBase<Trim, 17, 0> for StringletBase<Trim, 17, 0> { proof fn lemma_legal() {} }
impl ConfigBase<Trim, 18, 0> for StringletBase<Trim, 18, 0> { proof fn lemma_legal() {} }
impl ConfigBase<Trim, 19, 0> for StringletBase<Trim, 19, 0> { proof fn lemma_legal() {} }
impl ConfigBase<Trim, 20, 0> for StringletBase<Trim, 20, 0> { proof fn lemma_legal() {} }
impl ConfigBase<Trim, 21, 0> for StringletBase<Trim, 21, 0> { proof fn lemma_legal() {} }
impl ConfigBase<Trim, 22, 0> for StringletBase<Trim, 22, 0> { proof fn lemma_legal() {} }
impl ConfigBase<Trim, 23, 0> for StringletBase<Trim, 23, 0> { proof fn lemma_legal() {} }
impl ConfigBase<Trim, 24, 0> for StringletBase<Trim, 24, 0> { proof fn lemma_legal() {} }
impl ConfigBase<Trim, 25, 0> for StringletBase<Trim, 25, 0> { proof fn lemma_legal() {} }
impl ConfigBase<Trim, 26, 0> for StringletBase<Trim, 26, 0> { proof fn lemma_legal() {} }
impl ConfigBase<Trim, 27, 0> for StringletBase<Trim, 27, 0> { proof fn lemma_legal() {} }
impl ConfigBase<Trim, 28, 0> for StringletBase<Trim, 28, 0> { proof fn lemma_legal() {} }
impl ConfigBase<Trim, 29, 0> for StringletBase<Trim, 29, 0> { proof fn lemma_legal() {} }
impl ConfigBase<Trim, 30, 0> for StringletBase<Trim, 30, 0> { proof fn lemma_legal() {} }
impl ConfigBase<Trim, 31, 0> for StringletBase<Trim, 31, 0> { proof fn lemma_legal() {} }
impl ConfigBase<Trim, 32, 0> for StringletBase<Trim, 32, 0> { proof fn lemma_legal() {} }
impl ConfigBase<Trim, 33, 0> for StringletBase<Trim, 33, 0> { proof fn lemma_legal() {} }
impl ConfigBase<Trim, 34, 0> for StringletBase<Trim, 34, 0> { proof fn lemma_legal() {} }
impl ConfigBase<Trim, 35, 0> for StringletBase<Trim, 35, 0> { proof fn lemma_legal() {} }
impl ConfigBase<Trim, 36, 0> for StringletBase<Trim, 36, 0> { proof fn lemma_legal() {} }
impl ConfigBase<Trim, 37, 0> for StringletBase<Trim, 37, 0> { proof fn lemma_legal() {} }
impl ConfigBase<Trim, 38, 0> for StringletBase<Trim, 38, 0> { proof fn lemma_legal() {} }
impl ConfigBase<Trim, 39, 0> for StringletBase<Trim, 39, 0> { proof fn lemma_legal() {} }
impl ConfigBase<Trim, 40, 0> for StringletBase<Trim, 40, 0> { proof fn lemma_legal() {} }
impl ConfigBase<Trim, 41, 0> for StringletBase<Trim, 41, 0> { proof fn lemma_legal() {} }
impl ConfigBase<Trim, 42, 0> for StringletBase<Trim, 42, 0> { proof fn lemma_legal() {} }
impl ConfigBase<Trim, 43, 0> for StringletBase<Trim, 43, 0> { proof fn lemma_legal() {} }
impl ConfigBase<Trim, 44, 0> for StringletBase<Trim, 44, 0> { proof fn lemma_legal() {} }
impl ConfigBase<Trim, 45, 0> for StringletBase<Trim, 45, 0> { proof fn lemma_legal() {} }
impl ConfigBase<Trim, 46, 0> for StringletBase<Trim, 46, 0> { proof fn lemma_legal() {} }
impl ConfigBase<Trim, 47, 0> for StringletBase<Trim, 47, 0> { proof fn lemma_legal() {} }
impl ConfigBase<Trim, 48, 0> for StringletBase<Trim, 48, 0> { proof fn lemma_legal() {} }
impl ConfigBase<Trim, 49, 0> for StringletBase<Trim, 49, 0> { proof fn lemma_legal() {} }
impl ConfigBase<Trim, 50, 0> for StringletBase<Trim, 50, 0> { proof fn lemma_legal() {} }
impl ConfigBase<Trim, 51, 0> for StringletBase<Trim, 51, 0> { proof fn lemma_legal() {} }
impl ConfigBase<Trim, 52, 0> for StringletBase<Trim, 52, 0> { proof fn lemma_legal() {} }
impl ConfigBase<Trim, 53, 0> for StringletBase<Trim, 53, 0> { proof fn lemma_legal() {} }
impl ConfigBase<Trim, 54, 0> for StringletBase<Trim, 54, 0> { proof fn lemma_legal() {} }
impl ConfigBase<Trim, 55, 0> for StringletBase<Trim, 55, 0> { proof fn lemma_legal() {} }
impl ConfigBase<Trim, 56, 0> for StringletBase<Trim, 56, 0> { proof fn lemma_legal() {} }
impl ConfigBase<Trim, 57, 0> for StringletBase<Trim, 57, 0> { proof fn lemma_legal() {} }
impl ConfigBase<Trim, 58, 0> for StringletBase<Trim, 58, 0> { proof fn lemma_legal() {} }
impl ConfigBase<Trim, 59, 0> for StringletBase<Trim, 59, 0> { proof fn lemma_legal() {} }
impl ConfigBase<Trim, 60, 0> for StringletBase<Trim, 60, 0> { proof fn lemma_legal() {} }
impl ConfigBase<Trim, 61, 0> for StringletBase<Trim, 61, 0> { proof fn lemma_legal() {} }
impl ConfigBase<Trim, 62, 0> for StringletBase<Trim, 62, 0> { proof fn lemma_legal() {} }
impl ConfigBase<Trim, 63, 0> for StringletBase<Trim, 63, 0> { proof fn lemma_legal() {} }
impl ConfigBase<Trim, 64, 0> for StringletBase<Trim, 64, 0> { proof fn lemma_legal() {} }

impl ConfigBase<Slim, 0, 0> for StringletBase<Slim, 0, 0> { proof fn lemma_legal() {} }
impl ConfigBase<Slim, 1, 0> for StringletBase<Slim, 1, 0> { proof fn lemma_legal() {} }
impl ConfigBase<Slim, 2, 0> for StringletBase<Slim, 2, 0> { proof fn lemma_legal() {} }
impl ConfigBase<Slim, 3, 0> for StringletBase<Slim, 3, 0> { proof fn lemma_legal() {} }
impl ConfigBase<Slim, 4, 0> for StringletBase<Slim, 4, 0> { proof fn lemma_legal() {} }
impl ConfigBase<Slim, 5, 0> for StringletBase<Slim, 5, 0> { proof fn lemma_legal() {} }
impl ConfigBase<Slim, 6, 0> for StringletBase<Slim, 6, 0> { proof fn lemma_legal() {} }
impl ConfigBase<Slim, 7, 0> for StringletBase<Slim, 7, 0> { proof fn lemma_legal() {} }
impl ConfigBase<Slim, 8, 0> for StringletBase<Slim, 8, 0> { proof fn lemma_legal() {} }
impl ConfigBase<Slim, 9, 0> for StringletBase<Slim, 9, 0> { proof fn lemma_legal() {} }
impl ConfigBase<Slim, 10, 0> for StringletBase<Slim, 10, 0> { proof fn lemma_legal() {} }
impl ConfigBase<Slim, 11, 0> for StringletBase<Slim, 11, 0> { proof fn lemma_legal() {} }
impl ConfigBase<Slim, 12, 0> for StringletBase<Slim, 12, 0> { proof fn lemma_legal() {} }
impl ConfigBase<Slim, 13, 0> for StringletBase<Slim, 13, 0> { proof fn lemma_legal() {} }
impl ConfigBase<Slim, 14, 0> for StringletBase<Slim, 14, 0> { proof fn lemma_legal() {} }
impl ConfigBase<Slim, 15, 0> for StringletBase<Slim, 15, 0> { proof fn lemma_legal() {} }
impl ConfigBase<Slim, 16, 0> for StringletBase<Slim, 16, 0> { proof fn lemma_legal() {} }
impl ConfigBase<Slim, 17, 0> for StringletBase<Slim, 17, 0> { proof fn lemma_legal() {} }
impl ConfigBase<Slim, 18, 0> for StringletBase<Slim, 18, 0> { proof fn lemma_legal() {} }
impl ConfigBase<Slim, 19, 0> for StringletBase<Slim, 19, 0> { proof fn lemma_legal() {} }
impl ConfigBase<Slim, 20, 0> for StringletBase<Slim, 20, 0> { proof fn lemma_legal() {} }
impl ConfigBase<Slim, 21, 0> for StringletBase<Slim, 21, 0> { proof fn lemma_legal() {} }
impl ConfigBase<Slim, 22, 0> for StringletBase<Slim, 22, 0> { proof fn lemma_legal() {} }
impl ConfigBase<Slim, 23, 0> for StringletBase<Slim, 23, 0> { proof fn lemma_legal() {} }
impl ConfigBase<Slim, 24, 0> for StringletBase<Slim, 24, 0> { proof fn lemma_legal() {} }
impl ConfigBase<Slim, 25, 0> for StringletBase<Slim, 25, 0> { proof fn lemma_legal() {} }
impl ConfigBase<Slim, 26, 0> for StringletBase<Slim, 26, 0> { proof fn lemma_legal() {} }
impl ConfigBase<Slim, 27, 0> for StringletBase<Slim, 27, 0> { proof fn lemma_legal() {} }
impl ConfigBase<Slim, 28, 0> for StringletBase<Slim, 28, 0> { proof fn lemma_legal() {} }
impl ConfigBase<Slim, 29, 0> for StringletBase<Slim, 29, 0> { proof fn lemma_legal() {} }
impl ConfigBase<Slim, 30, 0> for StringletBase<Slim, 30, 0> { proof fn lemma_legal() {} }
impl ConfigBase<Slim, 31, 0> for StringletBase<Slim, 31, 0> { proof fn lemma_legal() {} }
impl ConfigBase<Slim, 32, 0> for StringletBase<Slim, 32, 0> { proof fn lemma_legal() {} }
impl ConfigBase<Slim, 33, 0> for StringletBase<Slim, 33, 0> { proof fn lemma_legal() {} }
impl ConfigBase<Slim, 34, 0> for StringletBase<Slim, 34, 0> { proof fn lemma_legal() {} }
impl ConfigBase<Slim, 35, 0> for StringletBase<Slim, 35, 0> { proof fn lemma_legal() {} }
impl ConfigBase<Slim, 36, 0> for StringletBase<Slim, 36, 0> { proof fn lemma_legal() {} }
impl ConfigBase<Slim, 37, 0> for StringletBase<Slim, 37, 0> { proof fn lemma_legal() {} }
impl ConfigBase<Slim, 38, 0> for StringletBase<Slim, 38, 0> { proof fn lemma_legal() {} }
impl ConfigBase<Slim, 39, 0> for StringletBase<Slim, 39, 0> { proof fn lemma_legal() {} }
impl ConfigBase<Slim, 40, 0> for StringletBase<Slim, 40, 0> { proof fn lemma_legal() {} }
impl ConfigBase<Slim, 41, 0> for StringletBase<Slim, 41, 0> { proof fn lemma_legal() {} }
impl ConfigBase<Slim, 42, 0> for StringletBase<Slim, 42, 0> { proof fn lemma_legal() {} }
impl ConfigBase<Slim, 43, 0> for StringletBase<Slim, 43, 0> { proof fn lemma_legal() {} }
impl ConfigBase<Slim, 44, 0> for StringletBase<Slim, 44, 0> { proof fn lemma_legal() {} }
impl ConfigBase<Slim, 45, 0> for StringletBase<Slim, 45, 0> { proof fn lemma_legal() {} }
impl ConfigBase<Slim, 46, 0> for StringletBase<Slim, 46, 0> { proof fn lemma_legal() {} }
impl ConfigBase<Slim, 47, 0> for StringletBase<Slim, 47, 0> { proof fn lemma_legal() {} }
impl ConfigBase<Slim, 48, 0> for StringletBase<Slim, 48, 0> { proof fn lemma_legal() {} }
impl ConfigBase<Slim, 49, 0> for StringletBase<Slim, 49, 0> { proof fn lemma_legal() {} }
impl ConfigBase<Slim, 50, 0> for StringletBase<Slim, 50, 0> { proof fn lemma_legal() {} }
impl ConfigBase<Slim, 51, 0> for StringletBase<Slim, 51, 0> { proof fn lemma_legal() {} }
impl ConfigBase<Slim, 52, 0> for StringletBase<Slim, 52, 0> { proof fn lemma_legal() {} }
impl ConfigBase<Slim, 53, 0> for StringletBase<Slim, 53, 0> { proof fn lemma_legal() {} }
impl ConfigBase<Slim, 54, 0> for StringletBase<Slim, 54, 0> { proof fn lemma_legal() {} }
impl ConfigBase<Slim, 55, 0> for StringletBase<Slim, 55, 0> { proof fn lemma_legal() {} }
impl ConfigBase<Slim, 56, 0> for StringletBase<Slim, 56, 0> { proof fn lemma_legal() {} }
impl ConfigBase<Slim, 57, 0> for StringletBase<Slim, 57, 0> { proof fn lemma_legal() {} }
impl ConfigBase<Slim, 58, 0> for StringletBase<Slim, 58, 0> { proof fn lemma_legal() {} }
impl ConfigBase<Slim, 59, 0> for StringletBase<Slim, 59, 0> { proof fn lemma_legal() {} }
impl ConfigBase<Slim, 60, 0> for StringletBase<Slim, 60, 0> { proof fn lemma_legal() {} }
impl ConfigBase<Slim, 61, 0> for StringletBase<Slim, 61, 0> { proof fn lemma_legal() {} }
impl ConfigBase<Slim, 62, 0> for StringletBase<Slim, 62, 0> { proof fn lemma_legal() {} }
impl ConfigBase<Slim, 63, 0> for StringletBase<Slim, 63, 0> { proof fn lemma_legal() {} }
impl ConfigBase<Slim, 64, 0> for StringletBase<Slim, 64, 0> { proof fn lemma_legal() {} }

impl<const SIZE: usize> Config<SIZE> for StringletBase<Fixed, SIZE, 0> where
    Self: ConfigBase<Fixed, SIZE, 0>,
 {
}

impl<const SIZE: usize> VarConfig<SIZE> for StringletBase<Var, SIZE, 1> where
    Self: ConfigBase<Var, SIZE, 1>,
 {
}

impl<const SIZE: usize> TrimConfig<SIZE> for StringletBase<Trim, SIZE, 0> where
    Self: ConfigBase<Trim, SIZE, 0>,
 {
}

impl<const SIZE: usize> SlimConfig<SIZE> for StringletBase<Slim, SIZE, 0> where
    Self: ConfigBase<Slim, SIZE, 0>,
 {
}

} // verus!

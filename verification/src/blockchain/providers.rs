pub mod uniswap;

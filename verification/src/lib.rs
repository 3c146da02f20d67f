pub mod fixed;
pub mod vec3;
pub mod color;
pub mod material;
pub mod ray_intersect;
pub mod sphere;
pub mod cube;
pub mod quad;
pub mod obj;
pub mod mesh;
pub mod object;
pub mod light;
pub mod sky;
pub mod textures;
pub mod math;
pub mod trace;
pub mod render;
